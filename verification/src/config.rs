use vstd::prelude::*;

verus! {

/// Resolved settings for one run of the bridge.  Loading them from the
/// settings file is the caller's business; this type owns the defaults.
pub struct Config {
    /// Host of the presentation application's HTTP API.
    pub host: String,
    /// Port of the presentation application's HTTP API.
    pub port: i64,
    /// When set, matched keys take their group's color; otherwise a plain
    /// on-gray.
    pub led_colors: bool,
    /// Eight-bit brightness of a matched key when `led_colors` is off.
    pub led_on: u8,
    /// Eight-bit brightness of an unmatched key.
    pub led_dim: u8,
    /// Poll ticks per second.
    pub update_frequency: i64,
}

impl Config {
    /// Resolve the recognized options, absent ones falling back to their
    /// defaults: host "localhost", port 50001, color mode off, on-level 255,
    /// dim-level 5, 100 ticks per second.
    pub fn from_options(
        host: Option<String>,
        port: Option<i64>,
        led_colors: Option<bool>,
        led_on: Option<i64>,
        led_dim: Option<i64>,
        update_frequency: Option<i64>,
    ) -> (c: Config)
        requires
            led_on matches Some(v) ==> 0 <= v <= 255,
            led_dim matches Some(v) ==> 0 <= v <= 255,
            update_frequency matches Some(v) ==> v >= 1,
        ensures
            c.host@ == (match host {
                Some(h) => h@,
                None => "localhost"@,
            }),
            c.port as int == (match port {
                Some(p) => p as int,
                None => 50001int,
            }),
            c.led_colors == (match led_colors {
                Some(b) => b,
                None => false,
            }),
            c.led_on as int == (match led_on {
                Some(v) => v as int,
                None => 255int,
            }),
            c.led_dim as int == (match led_dim {
                Some(v) => v as int,
                None => 5int,
            }),
            c.update_frequency as int == (match update_frequency {
                Some(v) => v as int,
                None => 100int,
            }),
            c.update_frequency >= 1,
    {
        Config {
            host: match host {
                Some(h) => h,
                None => "localhost".to_owned(),
            },
            port: match port {
                Some(p) => p,
                None => 50001,
            },
            led_colors: match led_colors {
                Some(b) => b,
                None => false,
            },
            led_on: match led_on {
                Some(v) => v as u8,
                None => 255,
            },
            led_dim: match led_dim {
                Some(v) => v as u8,
                None => 5,
            },
            update_frequency: match update_frequency {
                Some(v) => v,
                None => 100,
            },
        }
    }

    /// Milliseconds between poll ticks: 1000 divided by the tick frequency.
    pub fn tick_delay_ms(&self) -> (d: u64)
        requires
            self.update_frequency >= 1,
        ensures
            d == 1000int / (self.update_frequency as int),
    {
        (1000 / self.update_frequency) as u64
    }
}

} // verus!
