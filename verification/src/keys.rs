use vstd::prelude::*;
use vstd::string::*;

verus! {

/// A key on the physical keyboard: its LED position, stable for the session,
/// and the label derived from the device-reported LED name.
pub struct PhysicalKey {
    pub index: usize,
    pub label: String,
}

/// The device reports each LED of a keyboard as "Key: <label>"; the label is
/// the reported name with that prefix stripped, or the name itself where the
/// prefix is missing.
pub open spec fn label_of(raw: Seq<char>) -> Seq<char> {
    if raw.len() >= 5 && raw.subrange(0, 5) == "Key: "@ {
        raw.skip(5)
    } else {
        raw
    }
}

/// Strip the fixed "Key: " prefix from a device-reported LED name.
pub fn derive_label(raw: &str) -> (r: String)
    ensures
        r@ == label_of(raw@),
{
    proof {
        reveal_strlit("Key: ");
    }
    let prefix: &str = "Key: ";
    let n: usize = raw.unicode_len();
    if n >= 5 {
        let mut i: usize = 0;
        let mut same: bool = true;
        while i < 5
            invariant
                0 <= i <= 5,
                n == raw@.len(),
                n >= 5,
                prefix@ == "Key: "@,
                prefix@.len() == 5,
                same <==> (forall|j: int| 0 <= j < i ==> raw@[j] == "Key: "@[j]),
            decreases 5 - i,
        {
            if raw.get_char(i) != prefix.get_char(i) {
                same = false;
            }
            i += 1;
        }
        if same {
            proof {
                assert(raw@.subrange(0, 5) =~= "Key: "@);
            }
            let rest: &str = raw.substring_char(5, n);
            proof {
                assert(rest@ =~= raw@.skip(5));
            }
            rest.to_owned()
        } else {
            proof {
                let j = choose|j: int| 0 <= j < 5 && raw@[j] != "Key: "@[j];
                assert(raw@.subrange(0, 5)[j] == raw@[j]);
                assert(raw@.subrange(0, 5) != "Key: "@);
            }
            raw.to_owned()
        }
    } else {
        raw.to_owned()
    }
}

impl PhysicalKey {
    /// A key as enumerated from the device: its LED position and the label
    /// derived from the raw LED name.
    pub fn new(index: usize, raw_name: &str) -> (k: Self)
        ensures
            k.index == index,
            k.label@ == label_of(raw_name@),
    {
        PhysicalKey { index, label: derive_label(raw_name) }
    }
}

/// Build the physical key set from the device's LED names: one key per LED,
/// indexed in LED order.
pub fn physical_keys_from_names(names: &Vec<String>) -> (r: Vec<PhysicalKey>)
    ensures
        r@.len() == names@.len(),
        forall|i: int|
            0 <= i < r@.len() ==> r@[i].index == i && r@[i].label@ == label_of(names@[i]@),
{
    let mut out: Vec<PhysicalKey> = Vec::new();
    let mut i: usize = 0;
    while i < names.len()
        invariant
            i == out@.len(),
            i <= names@.len(),
            forall|j: int|
                0 <= j < i ==> out@[j].index == j && out@[j].label@ == label_of(names@[j]@),
        decreases names@.len() - i,
    {
        let k = PhysicalKey::new(i, names[i].as_str());
        out.push(k);
        i += 1;
    }
    out
}

} // verus!
