//! The scripting surface the adapter registers with the host interpreter:
//! one module holding one numeric version constant and six named operations.

use vstd::prelude::*;
use vstd::string::StringExecFns;

verus! {

/// The six operations the adapter registers into the scripting namespace.
///
/// Each is a named hook with no attached behaviour: invoking one reports
/// success and changes nothing.
#[derive(Clone, Copy, Debug, PartialEq, Eq, Structural)]
pub enum OpName {
    SetState,
    SetDetails,
    SetClass,
    SetPartySize,
    SetStartTime,
    Update,
}

/// The scripting name under which an operation is registered.
pub open spec fn spec_op_script_name(op: OpName) -> Seq<char> {
    match op {
        OpName::SetState => "set_state"@,
        OpName::SetDetails => "set_details"@,
        OpName::SetClass => "set_class"@,
        OpName::SetPartySize => "set_party_size"@,
        OpName::SetStartTime => "set_start_time"@,
        OpName::Update => "update"@,
    }
}

/// Builds the scripting name of an operation.
pub fn op_script_name(op: OpName) -> (r: String)
    ensures
        r@ == spec_op_script_name(op),
{
    match op {
        OpName::SetState => String::from_str("set_state"),
        OpName::SetDetails => String::from_str("set_details"),
        OpName::SetClass => String::from_str("set_class"),
        OpName::SetPartySize => String::from_str("set_party_size"),
        OpName::SetStartTime => String::from_str("set_start_time"),
        OpName::Update => String::from_str("update"),
    }
}

/// All six operations, in registration order.
pub open spec fn all_ops() -> Seq<OpName> {
    seq![
        OpName::SetState,
        OpName::SetDetails,
        OpName::SetClass,
        OpName::SetPartySize,
        OpName::SetStartTime,
        OpName::Update,
    ]
}

/// Result code an operation hands back to the interpreter when invoked.
///
/// Whatever the operation and whatever arguments the script passed, the code
/// is zero — success by convention — and nothing else is touched: no log
/// line, no state mutation.
pub fn op_result(_op: OpName) -> (r: i32)
    ensures
        r == 0,
{
    0
}

/// Everything `setup_game` asks the host to install: the module name, the
/// version constant under its name, and the operations in order.
///
/// The version is carried in tenths so that it stays an integer here; the
/// embedding divides by ten when it hands the number to the interpreter.
pub struct ScriptModulePlan {
    pub module: String,
    pub constant_name: String,
    pub version_tenths: u32,
    pub ops: Vec<OpName>,
}

/// The plan is the fixed one: module `DarktideDiscord`, constant `VERSION`
/// worth twenty tenths, and exactly the six operations, each once, in order.
pub open spec fn module_plan_wf(p: ScriptModulePlan) -> bool {
    &&& p.module@ == "DarktideDiscord"@
    &&& p.constant_name@ == "VERSION"@
    &&& p.version_tenths == 20
    &&& p.ops@ == all_ops()
}

/// Builds the fixed registration plan.
pub fn script_module_plan() -> (p: ScriptModulePlan)
    ensures
        module_plan_wf(p),
{
    let mut ops: Vec<OpName> = Vec::new();
    ops.push(OpName::SetState);
    ops.push(OpName::SetDetails);
    ops.push(OpName::SetClass);
    ops.push(OpName::SetPartySize);
    ops.push(OpName::SetStartTime);
    ops.push(OpName::Update);
    proof {
        assert(ops@ =~= all_ops());
    }
    ScriptModulePlan {
        module: String::from_str("DarktideDiscord"),
        constant_name: String::from_str("VERSION"),
        version_tenths: 20,
        ops,
    }
}

} // verus!
