//! Input-device selection: which device to open, in which order to try the
//! candidates, which stream configuration to use, and how device names are shown.
use crate::text::{
    contains_seq, contains_text, replace_seq, replace_text, starts_with_seq, starts_with_text,
    to_upper, upper_of,
};
use vstd::prelude::*;
use vstd::string::{StrSliceExecFns, StringExecFns};

verus! {

#[derive(Clone, Copy, PartialEq, Eq, Structural, Debug)]
pub enum DeviceError {
    /// No device matches the requested name, or none could be opened.
    DeviceNotFound,
    /// The device offers no input configuration.
    NoSupportedConfig,
    /// The audio subsystem refused to build the stream.
    StreamBuildFailed,
    /// The chosen configuration delivers samples in a format the capture path does not take.
    UnsupportedSampleFormat,
}

/// Whether the requested and the offered name, both in upper case, share one
/// of the fallback keywords (a connection kind or a brand).
pub open spec fn shares_keyword(wanted_upper: Seq<char>, name_upper: Seq<char>) -> bool {
    ||| (contains_seq(wanted_upper, "USB"@) && contains_seq(name_upper, "USB"@))
    ||| (contains_seq(wanted_upper, "GENERIC"@) && contains_seq(name_upper, "GENERIC"@))
    ||| (contains_seq(wanted_upper, "Q9"@) && contains_seq(name_upper, "Q9"@))
}

/// No listed name equals `wanted`.
pub open spec fn no_exact(names: Seq<String>, wanted: Seq<char>) -> bool {
    forall|j: int| 0 <= j < names.len() ==> #[trigger] names[j]@ != wanted
}

/// `i` is the first index whose name equals `wanted`.
pub open spec fn first_exact(names: Seq<String>, wanted: Seq<char>, i: int) -> bool {
    &&& 0 <= i < names.len()
    &&& names[i]@ == wanted
    &&& no_exact(names.subrange(0, i), wanted)
}

/// No listed name shares a fallback keyword with `wanted`.
pub open spec fn no_fallback(names: Seq<String>, wanted: Seq<char>) -> bool {
    forall|j: int|
        0 <= j < names.len() ==> !#[trigger] shares_keyword(upper_of(wanted), upper_of(names[j]@))
}

/// `i` is the first index whose name shares a fallback keyword with `wanted`.
pub open spec fn first_fallback(names: Seq<String>, wanted: Seq<char>, i: int) -> bool {
    &&& 0 <= i < names.len()
    &&& shares_keyword(upper_of(wanted), upper_of(names[i]@))
    &&& no_fallback(names.subrange(0, i), wanted)
}

fn shares_keyword_exec(wanted_upper: &str, name_upper: &str) -> (r: bool)
    ensures
        r == shares_keyword(wanted_upper@, name_upper@),
{
    (contains_text(wanted_upper, "USB") && contains_text(name_upper, "USB")) || (contains_text(
        wanted_upper,
        "GENERIC",
    ) && contains_text(name_upper, "GENERIC")) || (contains_text(wanted_upper, "Q9")
        && contains_text(name_upper, "Q9"))
}

/// The device to open for a requested name: the first whose name is exactly
/// `wanted`; failing that, the first that shares a fallback keyword with it
/// ("USB", "GENERIC", "Q9", compared in upper case); failing that, none.
pub fn find_named(names: &Vec<String>, wanted: &str) -> (r: Option<usize>)
    ensures
        match r {
            Some(i) => first_exact(names@, wanted@, i as int) || (no_exact(names@, wanted@)
                && first_fallback(names@, wanted@, i as int)),
            None => no_exact(names@, wanted@) && no_fallback(names@, wanted@),
        },
{
    let w = String::from_str(wanted);
    let mut i: usize = 0;
    while i < names.len()
        invariant
            0 <= i <= names@.len(),
            w@ == wanted@,
            no_exact(names@.subrange(0, i as int), wanted@),
        decreases names@.len() - i,
    {
        if names[i] == w {
            return Some(i);
        }
        assert forall|j: int| 0 <= j < i + 1 implies #[trigger] names@.subrange(0, i + 1)[j]@
            != wanted@ by {
            if j < i {
                assert(names@.subrange(0, i + 1)[j] == names@.subrange(0, i as int)[j]);
            }
        }
        i = i + 1;
    }
    assert(names@.subrange(0, names@.len() as int) =~= names@);
    let wu = to_upper(wanted);
    let mut k: usize = 0;
    while k < names.len()
        invariant
            0 <= k <= names@.len(),
            wu@ == upper_of(wanted@),
            no_exact(names@, wanted@),
            no_fallback(names@.subrange(0, k as int), wanted@),
        decreases names@.len() - k,
    {
        let nu = to_upper(names[k].as_str());
        if shares_keyword_exec(wu.as_str(), nu.as_str()) {
            return Some(k);
        }
        assert forall|j: int| 0 <= j < k + 1 implies !#[trigger] shares_keyword(
            upper_of(wanted@),
            upper_of(names@.subrange(0, k + 1)[j]@),
        ) by {
            if j < k {
                assert(names@.subrange(0, k + 1)[j] == names@.subrange(0, k as int)[j]);
            }
        }
        k = k + 1;
    }
    assert(names@.subrange(0, names@.len() as int) =~= names@);
    None
}

/// Sample formats an input configuration may deliver.
#[derive(Clone, Copy, PartialEq, Eq, Structural, Debug)]
pub enum SampleFormat {
    F32,
    I16,
    U16,
    Other,
}

/// One supported input configuration range, taken at its highest sample rate.
#[derive(Clone, Copy, PartialEq, Eq, Structural, Debug)]
pub struct ConfigRange {
    pub format: SampleFormat,
    pub max_sample_rate: u32,
    pub channels: u16,
}

/// `i` is the configuration to use: the first floating-point one, or the first
/// one when none is floating-point.
pub open spec fn preferred_config(configs: Seq<ConfigRange>, i: int) -> bool {
    &&& 0 <= i < configs.len()
    &&& forall|j: int| 0 <= j < i ==> #[trigger] configs[j].format != SampleFormat::F32
    &&& (configs[i].format == SampleFormat::F32 || (i == 0 && forall|j: int|
        0 <= j < configs.len() ==> #[trigger] configs[j].format != SampleFormat::F32))
}

/// Picks the configuration to open: the first floating-point one, else the first one.
pub fn select_config(configs: &Vec<ConfigRange>) -> (r: Result<usize, DeviceError>)
    ensures
        match r {
            Ok(i) => preferred_config(configs@, i as int),
            Err(e) => configs@.len() == 0 && e == DeviceError::NoSupportedConfig,
        },
{
    if configs.len() == 0 {
        return Err(DeviceError::NoSupportedConfig);
    }
    let mut i: usize = 0;
    while i < configs.len()
        invariant
            0 <= i <= configs@.len(),
            forall|j: int| 0 <= j < i ==> #[trigger] configs@[j].format != SampleFormat::F32,
        decreases configs@.len() - i,
    {
        if configs[i].format == SampleFormat::F32 {
            return Ok(i);
        }
        i = i + 1;
    }
    Ok(0)
}

/// Whether the capture path takes samples in `format` (floating point, or
/// 16-bit integers that it normalizes).
pub open spec fn format_supported(format: SampleFormat) -> bool {
    format != SampleFormat::Other
}

/// The configuration to build the stream with, or why there is none.
pub fn choose_config(configs: &Vec<ConfigRange>) -> (r: Result<ConfigRange, DeviceError>)
    ensures
        configs@.len() == 0 ==> r == Err::<ConfigRange, DeviceError>(DeviceError::NoSupportedConfig),
        configs@.len() > 0 ==> exists|i: int|
            #![trigger configs@[i]]
            preferred_config(configs@, i) && if format_supported(configs@[i].format) {
                r == Ok::<ConfigRange, DeviceError>(configs@[i])
            } else {
                r == Err::<ConfigRange, DeviceError>(DeviceError::UnsupportedSampleFormat)
            },
{
    match select_config(configs) {
        Ok(i) => {
            let c = configs[i];
            if c.format == SampleFormat::Other {
                Err(DeviceError::UnsupportedSampleFormat)
            } else {
                Ok(c)
            }
        },
        Err(e) => Err(e),
    }
}

/// How devices are tried when no name is requested.
#[derive(Clone, Copy, PartialEq, Eq, Structural, Debug)]
pub enum Strategy {
    /// The default device, then every listed device in turn, until one opens.
    AutoHeal,
    /// The default device only; fail fast when it does not open.
    DefaultOnly,
}

/// A device to try opening.
#[derive(Clone, Copy, PartialEq, Eq, Structural, Debug)]
pub enum Candidate {
    Default,
    Listed(usize),
}

/// Every listed device, in order.
pub open spec fn all_listed(n: nat) -> Seq<Candidate> {
    Seq::new(n, |i: int| Candidate::Listed(i as usize))
}

/// The devices to try, in order, when no name is requested.
pub open spec fn unnamed_plan(strategy: Strategy, n: nat, has_default: bool) -> Seq<Candidate> {
    let head = if has_default {
        seq![Candidate::Default]
    } else {
        Seq::empty()
    };
    match strategy {
        Strategy::AutoHeal => head + all_listed(n),
        Strategy::DefaultOnly => head,
    }
}

/// The devices to try opening, in order, until one opens.
///
/// A requested name is looked up with `find_named` and yields that one device,
/// or `DeviceNotFound`. Without one the strategy decides; an empty plan is
/// `DeviceNotFound`.
pub fn plan_attempts(
    strategy: Strategy,
    wanted: &Option<String>,
    names: &Vec<String>,
    has_default: bool,
) -> (r: Result<Vec<Candidate>, DeviceError>)
    ensures
        r matches Err(e) ==> e == DeviceError::DeviceNotFound,
        r matches Ok(p) ==> p@.len() > 0,
        wanted matches Some(w) ==> {
            &&& r is Err <==> (no_exact(names@, w@) && no_fallback(names@, w@))
            &&& r matches Ok(p) ==> p@.len() == 1 && (p@[0] matches Candidate::Listed(i) && (
                first_exact(names@, w@, i as int) || (no_exact(names@, w@) && first_fallback(
                names@,
                w@,
                i as int,
            ))))
        },
        wanted is None ==> {
            let plan = unnamed_plan(strategy, names@.len(), has_default);
            &&& r is Err <==> plan.len() == 0
            &&& r matches Ok(p) ==> p@ == plan
        },
{
    match wanted {
        Some(w) => match find_named(names, w.as_str()) {
            Some(i) => {
                let mut p: Vec<Candidate> = Vec::new();
                p.push(Candidate::Listed(i));
                assert(p@[0] == Candidate::Listed(i));
                Ok(p)
            },
            None => Err(DeviceError::DeviceNotFound),
        },
        None => {
            let mut p: Vec<Candidate> = Vec::new();
            if has_default {
                p.push(Candidate::Default);
            }
            let ghost head = p@;
            if strategy == Strategy::AutoHeal {
                let mut i: usize = 0;
                while i < names.len()
                    invariant
                        0 <= i <= names@.len(),
                        p@ == head + all_listed(i as nat),
                    decreases names@.len() - i,
                {
                    p.push(Candidate::Listed(i));
                    i = i + 1;
                    assert(p@ =~= head + all_listed(i as nat));
                }
            }
            assert(p@ =~= unnamed_plan(strategy, names@.len(), has_default));
            if p.len() == 0 {
                Err(DeviceError::DeviceNotFound)
            } else {
                Ok(p)
            }
        },
    }
}

/// The error surfaced once every planned attempt has failed: a single attempt
/// passes its own error on, while an exhausted search of several devices
/// reports that no working device was found.
pub fn exhausted_error(attempts: usize, last: DeviceError) -> (r: DeviceError)
    ensures
        attempts == 1 ==> r == last,
        attempts != 1 ==> r == DeviceError::DeviceNotFound,
{
    if attempts == 1 {
        last
    } else {
        DeviceError::DeviceNotFound
    }
}

/// Shown for a device whose name marks it as a Q9 microphone.
pub const Q9_LABEL: &'static str = "Q9 Microphone \u{1f399}\u{fe0f}";

/// Shown when no device name could be listed.
pub const DEFAULT_DEVICE_LABEL: &'static str = "Default Microphone";

/// `s` up to, not including, its first comma.
pub open spec fn before_comma(s: Seq<char>) -> Seq<char>
    decreases s.len(),
{
    if s.len() == 0 {
        s
    } else if s[0] == ',' {
        Seq::empty()
    } else {
        seq![s[0]] + before_comma(s.drop_first())
    }
}

/// The card name of an ALSA device string: its prefixes removed, cut at the first comma.
pub open spec fn alsa_card(raw: Seq<char>) -> Seq<char> {
    before_comma(replace_seq(replace_seq(raw, "sysdefault:CARD="@, ""@), "default:CARD="@, ""@))
}

/// How a raw device name is shown to a person choosing a device.
pub open spec fn display_name(raw: Seq<char>) -> Seq<char> {
    if contains_seq(upper_of(raw), "Q9"@) {
        Q9_LABEL@
    } else if starts_with_seq(raw, "sysdefault:CARD="@) || starts_with_seq(raw, "default:CARD="@) {
        alsa_card(raw)
    } else {
        raw
    }
}

/// The display names of `raw`, in order of first appearance, without repeats.
pub open spec fn distinct_displays(raw: Seq<Seq<char>>) -> Seq<Seq<char>>
    decreases raw.len(),
{
    if raw.len() == 0 {
        Seq::empty()
    } else {
        let acc = distinct_displays(raw.drop_last());
        let d = display_name(raw.last());
        if acc.contains(d) {
            acc
        } else {
            acc.push(d)
        }
    }
}

/// The list offered for selection: never empty.
pub open spec fn device_list(raw: Seq<Seq<char>>) -> Seq<Seq<char>> {
    if distinct_displays(raw).len() == 0 {
        seq![DEFAULT_DEVICE_LABEL@]
    } else {
        distinct_displays(raw)
    }
}

proof fn lemma_before_comma_at(s: Seq<char>, i: int)
    requires
        0 <= i <= s.len(),
        forall|j: int| 0 <= j < i ==> s[j] != ',',
        i == s.len() || s[i] == ',',
    ensures
        before_comma(s) == s.subrange(0, i),
    decreases s.len(),
{
    if s.len() > 0 && i > 0 {
        lemma_before_comma_at(s.drop_first(), i - 1);
        assert(seq![s[0]] + s.drop_first().subrange(0, i - 1) =~= s.subrange(0, i));
    } else {
        assert(s.subrange(0, i) =~= Seq::<char>::empty());
    }
}

fn cut_at_comma(s: &str) -> (r: String)
    ensures
        r@ == before_comma(s@),
{
    let n = s.unicode_len();
    let mut i: usize = 0;
    while i < n && s.get_char(i) != ','
        invariant
            n == s@.len(),
            0 <= i <= n,
            forall|j: int| 0 <= j < i ==> s@[j] != ',',
        decreases n - i,
    {
        i = i + 1;
    }
    proof {
        lemma_before_comma_at(s@, i as int);
    }
    String::from_str(s.substring_char(0, i))
}

fn display_name_exec(raw: &str) -> (r: String)
    ensures
        r@ == display_name(raw@),
{
    let upper = to_upper(raw);
    if contains_text(upper.as_str(), "Q9") {
        String::from_str(Q9_LABEL)
    } else if starts_with_text(raw, "sysdefault:CARD=") || starts_with_text(raw, "default:CARD=") {
        proof {
            reveal_strlit("sysdefault:CARD=");
            reveal_strlit("default:CARD=");
        }
        let a = replace_text(raw, "sysdefault:CARD=", "");
        let b = replace_text(a.as_str(), "default:CARD=", "");
        cut_at_comma(b.as_str())
    } else {
        String::from_str(raw)
    }
}

fn contains_name(names: &Vec<String>, x: &String) -> (r: bool)
    ensures
        r == names@.map_values(|s: String| s@).contains(x@),
{
    let ghost views = names@.map_values(|s: String| s@);
    let mut i: usize = 0;
    while i < names.len()
        invariant
            0 <= i <= names@.len(),
            views == names@.map_values(|s: String| s@),
            forall|j: int| 0 <= j < i ==> names@[j]@ != x@,
        decreases names@.len() - i,
    {
        if names[i] == *x {
            assert(views[i as int] == x@);
            return true;
        }
        i = i + 1;
    }
    assert forall|j: int| 0 <= j < views.len() implies views[j] != x@ by {
        assert(views[j] == names@[j]@);
    }
    false
}

/// The audio side of the application: device listing and naming.
pub struct AudioEngine;

impl AudioEngine {
    /// The device names offered for selection, from the raw names the audio
    /// subsystem reported: each shown by `display_name`, repeats dropped, and
    /// a default placeholder when nothing remains.
    pub fn list_input_devices(raw_names: &Vec<String>) -> (r: Vec<String>)
        ensures
            r@.map_values(|s: String| s@) == device_list(raw_names@.map_values(|s: String| s@)),
    {
        let ghost raw = raw_names@.map_values(|s: String| s@);
        let mut names: Vec<String> = Vec::new();
        let mut i: usize = 0;
        while i < raw_names.len()
            invariant
                0 <= i <= raw_names@.len(),
                raw == raw_names@.map_values(|s: String| s@),
                names@.map_values(|s: String| s@) == distinct_displays(raw.subrange(0, i as int)),
            decreases raw_names@.len() - i,
        {
            let d = display_name_exec(raw_names[i].as_str());
            let ghost acc = names@.map_values(|s: String| s@);
            proof {
                let pre = raw.subrange(0, i + 1);
                assert(pre.drop_last() =~= raw.subrange(0, i as int));
                assert(pre.last() == raw_names@[i as int]@);
            }
            if !contains_name(&names, &d) {
                names.push(d);
                assert(names@.map_values(|s: String| s@) =~= acc.push(d@));
            }
            i = i + 1;
        }
        assert(raw.subrange(0, raw.len() as int) =~= raw);
        if names.len() == 0 {
            names.push(String::from_str(DEFAULT_DEVICE_LABEL));
            assert(names@.map_values(|s: String| s@) =~= seq![DEFAULT_DEVICE_LABEL@]);
        }
        names
    }
}

} // verus!
