use vstd::prelude::*;
use crate::color::PP7Color;
use crate::color::color_or_default;
use crate::color::default_group_color;

verus! {

/// Identity of a global group or of a presentation.
#[derive(Clone)]
pub struct PP7Id {
    /// Unique id inside the presentation application.
    pub uuid: String,
    /// Readable name.
    pub name: String,
    pub index: u32,
}

/// One slide of a presentation; its content plays no part in resolution.
#[derive(Clone)]
pub struct PresentationSlide {
    pub enabled: bool,
    pub notes: String,
    pub text: String,
    pub label: String,
}

/// A slide group of a presentation: a name, the group's resolved color, and
/// its slides.  Names need not be unique within one presentation.
#[derive(Clone)]
pub struct PresentationGroup {
    pub name: String,
    pub color: PP7Color,
    pub slides: Vec<PresentationSlide>,
}

impl PresentationGroup {
    /// A group as fetched; an absent color falls back to the neutral gray.
    pub fn new(name: String, color: Option<PP7Color>, slides: Vec<PresentationSlide>) -> (g: Self)
        ensures
            g.name@ == name@,
            g.color == (match color {
                Some(c) => c,
                None => default_group_color(),
            }),
            g.slides@ == slides@,
    {
        PresentationGroup { name, color: color_or_default(color), slides }
    }
}

/// A presentation: identity and its ordered slide groups.
#[derive(Clone)]
pub struct Presentation {
    pub id: PP7Id,
    pub groups: Vec<PresentationGroup>,
    pub has_timeline: bool,
    pub presentation_path: String,
    pub destination: String,
}

/// The API response that carries the active presentation.
pub struct PresentationRequest {
    pub presentation: Presentation,
}

impl PresentationRequest {
    /// Path of the REST endpoint that serves the active presentation.
    pub fn get_path() -> (p: String)
        ensures
            p@ == "/v1/presentation/active"@,
    {
        "/v1/presentation/active".to_owned()
    }
}

/// A globally defined group with its color.
#[derive(Clone)]
pub struct GlobalGroup {
    pub id: PP7Id,
    pub color: PP7Color,
}

/// The global group list as one API response.
pub struct GlobalGroupList(pub Vec<GlobalGroup>);

impl GlobalGroupList {
    /// Path of the REST endpoint that serves the global group list.
    pub fn get_path() -> (p: String)
        ensures
            p@ == "/v1/groups"@,
    {
        "/v1/groups".to_owned()
    }
}

/// One key-binding row: a group name, a key label, and an LED index.  A
/// binding names a physical key when the label or the index matches.
#[derive(Clone)]
pub struct PP7KeyBind {
    pub bind: String,
    pub key: String,
    pub num: usize,
}

} // verus!
