use vstd::prelude::*;

use crate::decimal::{decimal, render_decimal, lemma_decimal_injective};
use crate::ext::event_scheduled::ScheduledInit;
use crate::ext::fetch_init::FetchInit;

verus! {

/// The two kinds of work a worker runs.
#[derive(Debug, Clone, Copy, PartialEq, Eq, Structural)]
pub enum TaskType {
    Fetch,
    Scheduled,
}

/// A unit of work for a worker, with the payload the script receives. The
/// payload is handed over once; afterwards the task keeps only its kind.
#[derive(Debug)]
pub enum Task {
    Fetch(Option<FetchInit>),
    Scheduled(Option<ScheduledInit>),
}

/// The payload of a task, taken out of it to be registered with the engine.
#[derive(Debug)]
pub enum TaskInit {
    Fetch(FetchInit),
    Scheduled(ScheduledInit),
}

impl TaskInit {
    pub open spec fn kind(self) -> TaskType {
        match self {
            TaskInit::Fetch(_) => TaskType::Fetch,
            TaskInit::Scheduled(_) => TaskType::Scheduled,
        }
    }
}

impl Task {
    pub open spec fn kind(self) -> TaskType {
        match self {
            Task::Fetch(_) => TaskType::Fetch,
            Task::Scheduled(_) => TaskType::Scheduled,
        }
    }

    /// The payload the task still holds, if any.
    pub open spec fn payload(self) -> Option<TaskInit> {
        match self {
            Task::Fetch(Some(init)) => Some(TaskInit::Fetch(init)),
            Task::Scheduled(Some(init)) => Some(TaskInit::Scheduled(init)),
            _ => None,
        }
    }

    pub fn task_type(&self) -> (t: TaskType)
        ensures
            t == self.kind(),
    {
        match self {
            Task::Fetch(_) => TaskType::Fetch,
            Task::Scheduled(_) => TaskType::Scheduled,
        }
    }

    /// Whether the payload is still in the task.
    pub fn has_payload(&self) -> (b: bool)
        ensures
            b == self.payload() is Some,
    {
        match self {
            Task::Fetch(data) => data.is_some(),
            Task::Scheduled(data) => data.is_some(),
        }
    }

    /// Takes the payload out of the task, to register it with the engine.
    pub fn take_init(&mut self) -> (init: TaskInit)
        requires
            old(self).payload() is Some,
        ensures
            Some(init) == old(self).payload(),
            final(self).kind() == old(self).kind(),
            final(self).payload() is None,
    {
        match self {
            Task::Fetch(data) => {
                let taken = data.take();
                match taken {
                    Some(init) => TaskInit::Fetch(init),
                    None => {
                        proof {
                            assert(false);
                        }
                        vstd::pervasive::unreached()
                    },
                }
            },
            Task::Scheduled(data) => {
                let taken = data.take();
                match taken {
                    Some(init) => TaskInit::Scheduled(init),
                    None => {
                        proof {
                            assert(false);
                        }
                        vstd::pervasive::unreached()
                    },
                }
            },
        }
    }

    /// The script that hands the payload, registered under `rid`, to the
    /// script's listener for this kind of task.
    pub fn trigger_script(&self, rid: u32) -> (s: String)
        ensures
            s@ == trigger_script_spec(self.kind(), rid as nat),
    {
        trigger_script(self.task_type(), rid)
    }
}

/// A task holds a payload exactly when it was built with one: the payload of
/// `Fetch(Some(init))` is that fetch payload, of `Scheduled(Some(init))` that
/// scheduled payload, and a task built with `None` holds none.
pub proof fn law_payload_is_the_task_field(f: FetchInit, s: ScheduledInit)
    ensures
        Task::Fetch(Some(f)).payload() == Some(TaskInit::Fetch(f)),
        Task::Scheduled(Some(s)).payload() == Some(TaskInit::Scheduled(s)),
        Task::Fetch(None).payload() is None,
        Task::Scheduled(None).payload() is None,
        forall|t: Task|
            #[trigger] t.payload() is Some <==> match t {
                Task::Fetch(d) => d is Some,
                Task::Scheduled(d) => d is Some,
            },
        forall|t: Task| #[trigger] t.payload() matches Some(i) ==> i.kind() == t.kind(),
{
}

/// The name of the global function of the script that runs a task of this kind.
pub open spec fn trigger_function(kind: TaskType) -> Seq<char> {
    match kind {
        TaskType::Fetch => "globalThis.triggerFetchEvent"@,
        TaskType::Scheduled => "globalThis.triggerScheduledEvent"@,
    }
}

/// `<trigger function>(<rid in decimal>)`
pub open spec fn trigger_script_spec(kind: TaskType, rid: nat) -> Seq<char> {
    trigger_function(kind) + "("@ + decimal(rid) + ")"@
}

/// Builds the call of the script's trigger for a task of `kind` whose payload
/// is registered under `rid`.
pub fn trigger_script(kind: TaskType, rid: u32) -> (s: String)
    ensures
        s@ == trigger_script_spec(kind, rid as nat),
{
    let mut s = match kind {
        TaskType::Fetch => String::from_str("globalThis.triggerFetchEvent"),
        TaskType::Scheduled => String::from_str("globalThis.triggerScheduledEvent"),
    };
    s.append("(");
    let digits = render_decimal(rid);
    s.append(digits.as_str());
    s.append(")");
    s
}

/// The resource id as the script engine's small integer receives it: the
/// 32 bits read as a signed number.
pub open spec fn rid_as_smi(rid: u32) -> int {
    if rid <= 0x7fff_ffff {
        rid as int
    } else {
        rid - 0x1_0000_0000
    }
}

/// Converts a resource id to the signed 32-bit integer that is passed to the
/// script's trigger (a plain `as` cast).
pub fn rid_to_smi(rid: u32) -> (v: i32)
    ensures
        v as int == rid_as_smi(rid),
{
    let v: i32 = rid as i32;
    assert(v as int == (if rid <= 0x7fff_ffff { rid as int } else { rid - 0x1_0000_0000 })) by (bit_vector)
        requires v == rid as i32;
    v
}

/// Two tasks of one kind registered under different resource ids are
/// triggered by different scripts: the script names the resource exactly.
pub proof fn law_trigger_script_names_the_rid(kind: TaskType, a: nat, b: nat)
    requires
        trigger_script_spec(kind, a) == trigger_script_spec(kind, b),
    ensures
        a == b,
{
    let p = trigger_function(kind) + "("@;
    let sa = trigger_script_spec(kind, a);
    let sb = trigger_script_spec(kind, b);
    let da = decimal(a);
    let db = decimal(b);
    assert(sa == p + da + ")"@);
    assert(sb == p + db + ")"@);
    assert(da.len() == db.len());
    assert(sa.subrange(p.len() as int, (p.len() + da.len()) as int) =~= da);
    assert(sb.subrange(p.len() as int, (p.len() + db.len()) as int) =~= db);
    lemma_decimal_injective(a, b);
}

/// A fetch task and a scheduled task are never triggered by the same script.
pub proof fn law_trigger_script_names_the_kind(a: nat, b: nat)
    ensures
        trigger_script_spec(TaskType::Fetch, a) != trigger_script_spec(TaskType::Scheduled, b),
{
    reveal_strlit("globalThis.triggerFetchEvent");
    reveal_strlit("globalThis.triggerScheduledEvent");
    let sa = trigger_script_spec(TaskType::Fetch, a);
    let sb = trigger_script_spec(TaskType::Scheduled, b);
    assert(sa[18] == 'F');
    assert(sb[18] == 'S');
}

/// Distinct resource ids reach the script as distinct integers, and an id
/// that fits a signed 32-bit integer reaches it unchanged.
pub proof fn law_rid_as_smi_is_faithful(a: u32, b: u32)
    ensures
        rid_as_smi(a) == rid_as_smi(b) ==> a == b,
        a <= 0x7fff_ffff ==> rid_as_smi(a) == a as int,
        i32::MIN <= rid_as_smi(a) <= i32::MAX,
{
}

} // verus!
