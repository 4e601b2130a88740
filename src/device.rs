use vstd::prelude::*;
use vstd::string::*;

use crate::error::EngineError;

verus! {

/// What one queue family of a physical device offers.
#[derive(Debug, Clone, Copy, PartialEq, Eq, Structural)]
pub struct QueueFamilyInfo {
    pub queues_count: u32,
    pub graphics: bool,
    pub compute: bool,
    pub transfers: bool,
}

/// The kinds of work a queue has to accept.
#[derive(Debug, Clone, Copy, PartialEq, Eq, Structural)]
pub struct Capabilities {
    pub graphics: bool,
    pub compute: bool,
    pub transfer: bool,
}

/// A family satisfies a request where it has a queue and every requested
/// kind of work.
pub open spec fn satisfies(f: QueueFamilyInfo, c: Capabilities) -> bool {
    &&& f.queues_count > 0
    &&& c.graphics ==> f.graphics
    &&& c.compute ==> f.compute
    &&& c.transfer ==> f.transfers
}

pub open spec fn has_family(fams: Seq<QueueFamilyInfo>, c: Capabilities) -> bool {
    exists|i: int| 0 <= i < fams.len() && satisfies(#[trigger] fams[i], c)
}

/// What the engine's one queue is used for: rendering, compute dispatches
/// and copying back.
pub fn required_capabilities() -> (c: Capabilities)
    ensures
        c == (Capabilities { graphics: true, compute: true, transfer: true }),
{
    Capabilities { graphics: true, compute: true, transfer: true }
}

fn family_satisfies(f: QueueFamilyInfo, c: Capabilities) -> (r: bool)
    ensures
        r == satisfies(f, c),
{
    f.queues_count > 0 && (!c.graphics || f.graphics) && (!c.compute || f.compute) && (!c.transfer || f.transfers)
}

/// The index of the first family in `fams` that satisfies `c`.
pub fn select_queue_family(fams: &Vec<QueueFamilyInfo>, c: Capabilities) -> (r: Option<usize>)
    ensures
        r is None <==> !has_family(fams@, c),
        r matches Some(i) ==> i < fams@.len() && satisfies(fams@[i as int], c)
            && forall|j: int| 0 <= j < i ==> !satisfies(#[trigger] fams@[j], c),
{
    let mut i: usize = 0;
    while i < fams.len()
        invariant
            i <= fams@.len(),
            forall|j: int| 0 <= j < i ==> !satisfies(#[trigger] fams@[j], c),
        decreases fams@.len() - i,
    {
        if family_satisfies(fams[i], c) {
            return Some(i);
        }
        i = i + 1;
    }
    None
}

/// The physical device and queue family the engine runs on.
#[derive(Debug, Clone, Copy, PartialEq, Eq, Structural)]
pub struct QueueChoice {
    pub device: usize,
    pub family: usize,
}

pub open spec fn any_device_has_family(devices: Seq<Vec<QueueFamilyInfo>>, c: Capabilities) -> bool {
    exists|d: int| 0 <= d < devices.len() && has_family(#[trigger] devices[d]@, c)
}

/// `q` names the first device that has a family satisfying `c`, and in it
/// the first such family.
pub open spec fn is_first_choice(devices: Seq<Vec<QueueFamilyInfo>>, c: Capabilities, q: QueueChoice) -> bool {
    &&& q.device < devices.len()
    &&& forall|d: int| 0 <= d < q.device ==> !has_family(#[trigger] devices[d]@, c)
    &&& q.family < devices[q.device as int]@.len()
    &&& satisfies(devices[q.device as int]@[q.family as int], c)
    &&& forall|j: int| 0 <= j < q.family ==> !satisfies(#[trigger] devices[q.device as int]@[j], c)
}

/// Picks the first device that has a family satisfying `c`, and in it the
/// first such family.
pub fn select_device(devices: &Vec<Vec<QueueFamilyInfo>>, c: Capabilities) -> (r: Result<QueueChoice, EngineError>)
    ensures
        devices@.len() == 0 ==> r == Err::<QueueChoice, EngineError>(EngineError::NoDeviceAvailable),
        devices@.len() > 0 && (forall|d: int| 0 <= d < devices@.len() ==> !has_family(#[trigger] devices@[d]@, c))
            ==> r == Err::<QueueChoice, EngineError>(EngineError::NoSuitableQueueFamily),
        r is Ok <==> any_device_has_family(devices@, c),
        r matches Ok(q) ==> is_first_choice(devices@, c, q),
{
    if devices.len() == 0 {
        return Err(EngineError::NoDeviceAvailable);
    }
    let mut d: usize = 0;
    while d < devices.len()
        invariant
            d <= devices@.len(),
            forall|k: int| 0 <= k < d ==> !has_family(#[trigger] devices@[k]@, c),
        decreases devices@.len() - d,
    {
        match select_queue_family(&devices[d], c) {
            Some(f) => {
                return Ok(QueueChoice { device: d, family: f });
            },
            None => {},
        }
        d = d + 1;
    }
    Err(EngineError::NoSuitableQueueFamily)
}

/// Whether `pat` occurs in `s` starting at `i`.
pub open spec fn occurs_at_spec(s: Seq<char>, pat: Seq<char>, i: int) -> bool {
    0 <= i && i + pat.len() <= s.len() && s.subrange(i, i + pat.len()) == pat
}

/// Whether `pat` occurs in `s` as a contiguous run of characters.
pub open spec fn has_substring(s: Seq<char>, pat: Seq<char>) -> bool {
    exists|i: int| #[trigger] occurs_at_spec(s, pat, i)
}

fn occurs_at(s: &str, pat: &str, i: usize, s_len: usize, p_len: usize) -> (r: bool)
    requires
        s_len == s@.len(),
        p_len == pat@.len(),
        i + p_len <= s_len,
    ensures
        r == occurs_at_spec(s@, pat@, i as int),
{
    let mut k: usize = 0;
    while k < p_len
        invariant
            s_len == s@.len(),
            p_len == pat@.len(),
            i + p_len <= s_len,
            k <= p_len,
            forall|j: int| 0 <= j < k ==> s@[i + j] == pat@[j],
        decreases p_len - k,
    {
        if s.get_char(i + k) != pat.get_char(k) {
            proof {
                assert(s@.subrange(i as int, i + p_len)[k as int] != pat@[k as int]);
            }
            return false;
        }
        k = k + 1;
    }
    proof {
        assert(s@.subrange(i as int, i + p_len) =~= pat@);
    }
    true
}

/// Whether `pat` occurs in `s`.
pub fn contains_str(s: &str, pat: &str) -> (r: bool)
    ensures
        r == has_substring(s@, pat@),
{
    let s_len = s.unicode_len();
    let p_len = pat.unicode_len();
    if p_len > s_len {
        return false;
    }
    if p_len == 0 {
        proof {
            assert(s@.subrange(0, 0) =~= pat@);
            assert(occurs_at_spec(s@, pat@, 0));
        }
        return true;
    }
    let positions = s_len - p_len + 1;
    let mut i: usize = 0;
    while i < positions
        invariant
            s_len == s@.len(),
            p_len == pat@.len(),
            0 < p_len <= s_len,
            positions == s_len - p_len + 1,
            i <= positions,
            forall|j: int| 0 <= j < i ==> !#[trigger] occurs_at_spec(s@, pat@, j),
        decreases positions - i,
    {
        if occurs_at(s, pat, i, s_len, p_len) {
            return true;
        }
        i = i + 1;
    }
    proof {
        assert forall|j: int| !#[trigger] occurs_at_spec(s@, pat@, j) by {
            if 0 <= j && j + pat@.len() <= s@.len() {
                assert(j < i);
            }
        }
    }
    false
}

/// The layers among `names` whose name holds "validation", in order.
pub open spec fn validation_layers(names: Seq<String>) -> Seq<String>
    decreases names.len(),
{
    if names.len() == 0 {
        Seq::empty()
    } else {
        let rest = validation_layers(names.drop_last());
        if has_substring(names.last()@, "validation"@) {
            rest.push(names.last())
        } else {
            rest
        }
    }
}

/// How the device context is to be set up.
pub struct DeviceConfig {
    pub enable_validation: bool,
    pub required_extensions: Vec<String>,
}

/// The instance layers to enable: the validation layers among `available`,
/// where validation is asked for, and none otherwise.
pub fn choose_layers(config: &DeviceConfig, available: &Vec<String>) -> (r: Vec<String>)
    ensures
        r@ == if config.enable_validation { validation_layers(available@) } else { Seq::<String>::empty() },
{
    let mut out: Vec<String> = Vec::new();
    if !config.enable_validation {
        return out;
    }
    let mut i: usize = 0;
    while i < available.len()
        invariant
            i <= available@.len(),
            out@ == validation_layers(available@.subrange(0, i as int)),
        decreases available@.len() - i,
    {
        let name = &available[i];
        proof {
            assert(available@.subrange(0, i as int + 1).drop_last() =~= available@.subrange(0, i as int));
            reveal_strlit("validation");
        }
        if contains_str(name.as_str(), "validation") {
            out.push(name.clone());
        }
        i = i + 1;
    }
    proof {
        assert(available@.subrange(0, available@.len() as int) =~= available@);
    }
    out
}

/// Name of the instance extension that reports validation messages.
pub open spec fn debug_report_extension() -> Seq<char> {
    "VK_EXT_debug_report"@
}

/// The extensions to enable: those required, in order, then the
/// debug-report extension where validation is asked for.
pub fn choose_extensions(config: &DeviceConfig) -> (r: Vec<String>)
    ensures
        r@.len() == config.required_extensions@.len() + if config.enable_validation { 1int } else { 0int },
        forall|i: int| 0 <= i < config.required_extensions@.len() ==> #[trigger] r@[i] == config.required_extensions@[i],
        config.enable_validation ==> r@.last()@ == debug_report_extension(),
{
    let mut out: Vec<String> = Vec::new();
    let mut i: usize = 0;
    while i < config.required_extensions.len()
        invariant
            i <= config.required_extensions@.len(),
            out@ == config.required_extensions@.subrange(0, i as int),
        decreases config.required_extensions@.len() - i,
    {
        out.push(config.required_extensions[i].clone());
        proof {
            assert(config.required_extensions@.subrange(0, i as int + 1)
                =~= config.required_extensions@.subrange(0, i as int).push(config.required_extensions@[i as int]));
        }
        i = i + 1;
    }
    if config.enable_validation {
        let name = "VK_EXT_debug_report";
        proof {
            reveal_strlit("VK_EXT_debug_report");
        }
        out.push(name.to_owned());
    }
    out
}

/// Which kinds a driver-reported message is tagged with.
#[derive(Debug, Clone, Copy, PartialEq, Eq, Structural)]
pub struct MessageFlags {
    pub error: bool,
    pub warning: bool,
    pub performance_warning: bool,
    pub information: bool,
    pub debug: bool,
}

/// Severity of a driver-reported message.
#[derive(Debug, Clone, Copy, PartialEq, Eq, Structural)]
pub enum Severity {
    Error,
    Warning,
    PerformanceWarning,
    Information,
    Debug,
}

/// The most severe kind a message is tagged with; a message with no tag is
/// informational, so that it is logged like any other.
pub open spec fn severity_of(f: MessageFlags) -> Severity {
    if f.error {
        Severity::Error
    } else if f.warning {
        Severity::Warning
    } else if f.performance_warning {
        Severity::PerformanceWarning
    } else if f.debug && !f.information {
        Severity::Debug
    } else {
        Severity::Information
    }
}

/// Classifies a driver-reported message by its most severe tag.
pub fn classify_message(f: MessageFlags) -> (r: Severity)
    ensures
        r == severity_of(f),
{
    if f.error {
        Severity::Error
    } else if f.warning {
        Severity::Warning
    } else if f.performance_warning {
        Severity::PerformanceWarning
    } else if f.debug && !f.information {
        Severity::Debug
    } else {
        Severity::Information
    }
}

/// The message kinds the engine subscribes to: all but debug chatter.
pub fn subscribed_messages() -> (f: MessageFlags)
    ensures
        f == (MessageFlags { error: true, warning: true, performance_warning: true, information: true, debug: false }),
{
    MessageFlags { error: true, warning: true, performance_warning: true, information: true, debug: false }
}

pub open spec fn severity_label_spec(s: Severity) -> Seq<char> {
    match s {
        Severity::Error => "error"@,
        Severity::Warning => "warning"@,
        Severity::PerformanceWarning => "performance_warning"@,
        Severity::Information => "information"@,
        Severity::Debug => "debug"@,
    }
}

/// The label a message of severity `s` is logged with.
pub fn severity_label(s: Severity) -> (r: &'static str)
    ensures
        r@ == severity_label_spec(s),
{
    proof {
        reveal_strlit("error");
        reveal_strlit("warning");
        reveal_strlit("performance_warning");
        reveal_strlit("information");
        reveal_strlit("debug");
    }
    match s {
        Severity::Error => "error",
        Severity::Warning => "warning",
        Severity::PerformanceWarning => "performance_warning",
        Severity::Information => "information",
        Severity::Debug => "debug",
    }
}

/// The device context the engine runs on: what to enable on the instance,
/// and the device and queue family chosen.
pub struct DeviceContext {
    pub layers: Vec<String>,
    pub extensions: Vec<String>,
    pub choice: QueueChoice,
}

/// Sets up the device context from what the driver enumerated: the layers
/// and extensions to enable as `config` asks, and the first device with a
/// queue family that satisfies `requested`. Fails with `NoDeviceAvailable`
/// where no device was enumerated and with `NoSuitableQueueFamily` where no
/// device has such a family.
pub fn initialize(config: &DeviceConfig, requested: Capabilities, available_layers: &Vec<String>, devices: &Vec<Vec<QueueFamilyInfo>>) -> (r: Result<DeviceContext, EngineError>)
    ensures
        devices@.len() == 0 ==> r == Err::<DeviceContext, EngineError>(EngineError::NoDeviceAvailable),
        devices@.len() > 0 && !any_device_has_family(devices@, requested)
            ==> r == Err::<DeviceContext, EngineError>(EngineError::NoSuitableQueueFamily),
        r is Ok <==> any_device_has_family(devices@, requested),
        r matches Ok(ctx) ==> {
            &&& is_first_choice(devices@, requested, ctx.choice)
            &&& ctx.layers@ == if config.enable_validation { validation_layers(available_layers@) } else { Seq::<String>::empty() }
            &&& ctx.extensions@.len() == config.required_extensions@.len() + if config.enable_validation { 1int } else { 0int }
            &&& forall|i: int| 0 <= i < config.required_extensions@.len() ==> #[trigger] ctx.extensions@[i] == config.required_extensions@[i]
            &&& config.enable_validation ==> ctx.extensions@.last()@ == debug_report_extension()
        },
{
    let choice = select_device(devices, requested)?;
    let layers = choose_layers(config, available_layers);
    let extensions = choose_extensions(config);
    Ok(DeviceContext { layers, extensions, choice })
}

} // verus!
