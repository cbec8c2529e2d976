//! The "Sound" preferences surface's option pickers: each picker pairs a
//! display label with the value stored in the audio state.
use vstd::prelude::*;

use crate::text::same_text;

verus! {

/// The "no named preset matches" label shown in the preset picker.
pub const CUSTOM_LABEL: &'static str = "Custom";

/// The ReplayGain-mode picker options: display label, stored value.
pub const RG_MODES: [(&'static str, &'static str); 3] = [
    ("Off", "off"),
    ("Track", "track"),
    ("Album", "album"),
];

/// The output-backend picker options: display label, stored value.
pub const BACKENDS: [(&'static str, &'static str); 5] = [
    ("Automatic", "auto"),
    ("PipeWire", "pipewire"),
    ("PulseAudio", "pulse"),
    ("ALSA", "alsa"),
    ("JACK", "jack"),
];

/// The resampler-quality picker options: display label, stored value.
pub const RESAMPLERS: [(&'static str, &'static str); 2] = [
    ("Default", "default"),
    ("High quality", "high"),
];

/// The Smart Speed aggressiveness picker: display label, stored value.
pub const SMART_SPEED_LEVELS: [(&'static str, &'static str); 3] = [
    ("Gentle", "gentle"),
    ("Balanced", "balanced"),
    ("Aggressive", "aggressive"),
];

/// The display labels of an option table, in order.
pub fn option_labels<'a>(table: &[(&'a str, &'a str)]) -> (r: Vec<&'a str>)
    ensures
        r@.len() == table@.len(),
        forall|i: int| 0 <= i < table@.len() ==> #[trigger] r@[i] == table@[i].0,
{
    let n = table.len();
    let mut out: Vec<&'a str> = Vec::new();
    let mut i: usize = 0;
    while i < n
        invariant
            n == table@.len(),
            i <= n,
            out@.len() == i,
            forall|j: int| 0 <= j < i ==> #[trigger] out@[j] == table@[j].0,
        decreases n - i,
    {
        out.push(table[i].0);
        i += 1;
    }
    out
}

/// The index of the first option whose stored value is `value`, or 0 (the
/// first option) when none matches.
pub fn option_index(table: &[(&str, &str)], value: &str) -> (r: u32)
    ensures
        ({
            ||| exists|k: int|
                0 <= k < table@.len() && table@[k].1@ == value@ && r == k as u32 && forall|j: int|
                    0 <= j < k ==> (#[trigger] table@[j]).1@ != value@
            ||| (forall|j: int| 0 <= j < table@.len() ==> (#[trigger] table@[j]).1@ != value@)
                && r == 0
        }),
{
    let n = table.len();
    let mut i: usize = 0;
    while i < n
        invariant
            n == table@.len(),
            i <= n,
            forall|j: int| 0 <= j < i ==> (#[trigger] table@[j]).1@ != value@,
        decreases n - i,
    {
        if same_text(table[i].1, value) {
            #[verifier::truncate]
            let k = i as u32;
            return k;
        }
        i += 1;
    }
    0
}

/// The stored value at a picker `index`, or the first option's when the
/// index is out of range.
pub fn option_value<'a>(table: &[(&'a str, &'a str)], index: u32) -> (r: &'a str)
    requires
        table@.len() > 0,
    ensures
        r == if (index as int) < table@.len() {
            table@[index as int].1
        } else {
            table@[0].1
        },
{
    let i = index as usize;
    if i < table.len() {
        table[i].1
    } else {
        table[0].1
    }
}

/// How an output device is listed: its description, or its name when it
/// has none.
pub fn device_label(name: &str, description: &str) -> (r: String)
    ensures
        r@ == (if description@.len() > 0 {
            description@
        } else {
            name@
        }),
{
    if description.is_empty() {
        String::from_str(name)
    } else {
        String::from_str(description)
    }
}

/// Whether the header menu ticks the device `name`: it is the current
/// device, or there is no current device and it is `auto`.
pub fn device_is_current(name: &str, current: Option<&str>) -> (r: bool)
    ensures
        r == match current {
            Some(c) => c@ == name@,
            None => name@ == "auto"@,
        },
{
    match current {
        Some(c) => same_text(c, name),
        None => same_text(name, "auto"),
    }
}

/// The first position of `x` among `names`, if any.
pub open spec fn position_of(names: Seq<Seq<char>>, x: Seq<char>) -> Option<int>
    decreases names.len(),
{
    if names.len() == 0 {
        None
    } else if names[0] == x {
        Some(0)
    } else {
        match position_of(names.drop_first(), x) {
            Some(k) => Some(k + 1),
            None => None,
        }
    }
}

/// The preferences device picker's selected row: the current device's
/// position among the device names, or the first row.
pub fn device_index(names: &[String], current: Option<&str>) -> (r: u32)
    requires
        names@.len() <= u32::MAX,
    ensures
        r == match current {
            Some(c) => match position_of(names@.map_values(|n: String| n@), c@) {
                Some(k) => k,
                None => 0,
            },
            None => 0,
        },
{
    let c = match current {
        Some(c) => c,
        None => return 0,
    };
    let ghost v = names@.map_values(|n: String| n@);
    let n = names.len();
    let mut i: usize = 0;
    assert(v.skip(0) =~= v);
    while i < n
        invariant
            n == names@.len(),
            v == names@.map_values(|n: String| n@),
            n <= u32::MAX,
            i <= n,
            current == Some(c),
            position_of(v, c@) == match position_of(v.skip(i as int), c@) {
                Some(k) => Some(k + i),
                None => None,
            },
        decreases n - i,
    {
        assert(v.skip(i as int)[0] == names@[i as int]@);
        if same_text(names[i].as_str(), c) {
            return i as u32;
        }
        assert(v.skip(i as int).drop_first() =~= v.skip(i + 1));
        i += 1;
    }
    0
}

/// The preset picker's initial row: the matched preset's position among
/// the preset names, else the trailing "Custom" row (one past the names).
pub fn initial_preset(names: &[String], matched: Option<&str>) -> (r: u32)
    requires
        names@.len() <= u32::MAX,
    ensures
        r == match matched {
            Some(m) => match position_of(names@.map_values(|n: String| n@), m@) {
                Some(k) => k,
                None => names@.len() as int,
            },
            None => names@.len() as int,
        },
{
    let custom = names.len() as u32;
    let m = match matched {
        Some(m) => m,
        None => return custom,
    };
    let ghost v = names@.map_values(|n: String| n@);
    let n = names.len();
    let mut i: usize = 0;
    assert(v.skip(0) =~= v);
    while i < n
        invariant
            n == names@.len(),
            v == names@.map_values(|n: String| n@),
            n <= u32::MAX,
            i <= n,
            matched == Some(m),
            position_of(v, m@) == match position_of(v.skip(i as int), m@) {
                Some(k) => Some(k + i),
                None => None,
            },
        decreases n - i,
    {
        assert(v.skip(i as int)[0] == names@[i as int]@);
        if same_text(names[i].as_str(), m) {
            return i as u32;
        }
        assert(v.skip(i as int).drop_first() =~= v.skip(i + 1));
        i += 1;
    }
    custom
}

} // verus!
