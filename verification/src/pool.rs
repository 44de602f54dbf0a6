//! What a slot of the pool is, what is known of the machine in it, and how pool requests fail.
use vstd::prelude::*;

use crate::numbers::{decimal, push_decimal};
use crate::text::same_text;

verus! {

/// Where a slot stands in the life of its virtual machine.
#[derive(Debug, Clone, Copy, PartialEq, Eq, Structural)]
pub enum SlotState {
    /// No machine is assigned.
    Empty,
    /// A machine is reserved and has not reported itself booted.
    Booting,
    /// A machine runs here.
    Occupied,
    /// The hypervisor process could not be started or watched.
    Failed,
}

/// The name of a slot state, as error messages and summaries show it.
pub open spec fn state_name(state: SlotState) -> Seq<char> {
    match state {
        SlotState::Empty => "Empty"@,
        SlotState::Booting => "Booting"@,
        SlotState::Occupied => "Occupied"@,
        SlotState::Failed => "Failed"@,
    }
}

impl SlotState {
    /// The name of the state.
    pub fn name(self) -> (r: &'static str)
        ensures
            r@ == state_name(self),
    {
        match self {
            SlotState::Empty => "Empty",
            SlotState::Booting => "Booting",
            SlotState::Occupied => "Occupied",
            SlotState::Failed => "Failed",
        }
    }
}

/// The state of a machine that is listed as running.
#[derive(Debug, Clone, Copy, PartialEq, Eq, Structural)]
pub enum VmState {
    Running,
}

/// What a slot reports of itself.
#[derive(Debug)]
pub struct SlotStatus {
    pub slot: usize,
    /// Grows whenever a machine is assigned to the slot or taken from it.
    pub generation: u64,
    pub state: SlotState,
    pub name: Option<String>,
    pub mac: Option<String>,
    pub tap: Option<String>,
    pub pid: Option<u32>,
    pub started_at: Option<String>,
    pub last_error: Option<String>,
}

impl Clone for SlotStatus {
    fn clone(&self) -> (r: Self)
        ensures
            r == *self,
    {
        SlotStatus {
            slot: self.slot,
            generation: self.generation,
            state: self.state,
            name: self.name.clone(),
            mac: self.mac.clone(),
            tap: self.tap.clone(),
            pid: self.pid,
            started_at: self.started_at.clone(),
            last_error: self.last_error.clone(),
        }
    }
}

/// A running machine.
#[derive(Debug)]
pub struct VmRuntime {
    pub name: String,
    pub mac: String,
    pub tap: String,
    pub pid: u32,
    pub state: VmState,
    pub started_at: String,
}

impl Clone for VmRuntime {
    fn clone(&self) -> (r: Self)
        ensures
            r == *self,
    {
        VmRuntime {
            name: self.name.clone(),
            mac: self.mac.clone(),
            tap: self.tap.clone(),
            pid: self.pid,
            state: self.state,
            started_at: self.started_at.clone(),
        }
    }
}

/// What a hypervisor answered to a request.
#[derive(Debug)]
pub struct ProxyResponse {
    pub status: u16,
    pub content_type: Option<String>,
    pub body: Vec<u8>,
}

impl Clone for ProxyResponse {
    fn clone(&self) -> (r: Self)
        ensures
            r.status == self.status,
            r.content_type == self.content_type,
            r.body@ == self.body@,
    {
        let body = self.body.clone();
        proof {
            assert(body@ =~= self.body@);
        }
        ProxyResponse { status: self.status, content_type: self.content_type.clone(), body }
    }
}

/// Why a request to the pool failed.
#[derive(Debug)]
pub enum PoolError {
    InvalidTransition { slot: usize, from: SlotState, action: &'static str },
    SlotNotFound(usize),
    VmNotFound(String),
    VmAlreadyRunning(String),
    NoAvailableSlot,
    ChannelClosed,
    Backend(String),
}

/// A `PoolError` with its texts as sequences of characters.
pub enum PoolErrorView {
    InvalidTransition { slot: usize, from: SlotState, action: Seq<char> },
    SlotNotFound(usize),
    VmNotFound(Seq<char>),
    VmAlreadyRunning(Seq<char>),
    NoAvailableSlot,
    ChannelClosed,
    Backend(Seq<char>),
}

impl View for PoolError {
    type V = PoolErrorView;

    open spec fn view(&self) -> PoolErrorView {
        match *self {
            PoolError::InvalidTransition { slot, from, action } => {
                PoolErrorView::InvalidTransition { slot, from, action: action@ }
            },
            PoolError::SlotNotFound(slot) => PoolErrorView::SlotNotFound(slot),
            PoolError::VmNotFound(name) => PoolErrorView::VmNotFound(name@),
            PoolError::VmAlreadyRunning(name) => PoolErrorView::VmAlreadyRunning(name@),
            PoolError::NoAvailableSlot => PoolErrorView::NoAvailableSlot,
            PoolError::ChannelClosed => PoolErrorView::ChannelClosed,
            PoolError::Backend(error) => PoolErrorView::Backend(error@),
        }
    }
}

/// The outcome of a pool request, with the error by its view.
pub open spec fn outcome<T>(r: Result<T, PoolError>) -> Result<T, PoolErrorView> {
    match r {
        Ok(v) => Ok(v),
        Err(e) => Err(e@),
    }
}

/// "slot N cannot perform ACTION from state STATE".
pub open spec fn transition_message(slot: usize, from: SlotState, action: Seq<char>) -> Seq<char> {
    "slot "@ + decimal(slot as nat) + " cannot perform "@ + action + " from state "@ + state_name(
        from,
    )
}

/// Writes "slot N cannot perform ACTION from state STATE".
pub fn transition_text(slot: usize, from: SlotState, action: &str) -> (r: String)
    ensures
        r@ == transition_message(slot, from, action@),
{
    let mut out = "slot ".to_owned();
    push_decimal(&mut out, slot as u64);
    out.append(" cannot perform ");
    out.append(action);
    out.append(" from state ");
    out.append(from.name());
    out
}

/// BEFORE, the decimal text of `n`, AFTER.
pub open spec fn numbered(before: Seq<char>, n: nat, after: Seq<char>) -> Seq<char> {
    before + decimal(n) + after
}

/// Writes BEFORE, the decimal text of `n`, AFTER.
pub fn numbered_text(before: &str, n: u64, after: &str) -> (r: String)
    ensures
        r@ == numbered(before@, n as nat, after@),
{
    let mut out = before.to_owned();
    push_decimal(&mut out, n);
    out.append(after);
    out
}

/// "VM 'NAME'" followed by `what`.
pub open spec fn vm_message(name: Seq<char>, what: Seq<char>) -> Seq<char> {
    "VM '"@ + name + "'"@ + what
}

/// Writes "VM 'NAME'" followed by `what`.
pub fn vm_text(name: &str, what: &str) -> (r: String)
    ensures
        r@ == vm_message(name@, what@),
{
    let mut out = "VM '".to_owned();
    out.append(name);
    out.append("'");
    out.append(what);
    out
}

/// How a `PoolError` reads.
pub open spec fn pool_error_message(e: PoolErrorView) -> Seq<char> {
    match e {
        PoolErrorView::InvalidTransition { slot, from, action } => transition_message(
            slot,
            from,
            action,
        ),
        PoolErrorView::SlotNotFound(slot) => numbered("slot "@, slot as nat, " does not exist"@),
        PoolErrorView::VmNotFound(name) => vm_message(name, " not found"@),
        PoolErrorView::VmAlreadyRunning(name) => vm_message(name, " is already running"@),
        PoolErrorView::NoAvailableSlot => "pool is exhausted"@,
        PoolErrorView::ChannelClosed => "slot worker channel is closed"@,
        PoolErrorView::Backend(error) => "backend request failed: "@ + error,
    }
}

impl PoolError {
    /// Describes the error.
    pub fn to_text(&self) -> (r: String)
        ensures
            r@ == pool_error_message(self@),
    {
        match self {
            PoolError::InvalidTransition { slot, from, action } => transition_text(
                *slot,
                *from,
                action,
            ),
            PoolError::SlotNotFound(slot) => numbered_text(
                "slot ",
                *slot as u64,
                " does not exist",
            ),
            PoolError::VmNotFound(name) => vm_text(name.as_str(), " not found"),
            PoolError::VmAlreadyRunning(name) => vm_text(name.as_str(), " is already running"),
            PoolError::NoAvailableSlot => "pool is exhausted".to_owned(),
            PoolError::ChannelClosed => "slot worker channel is closed".to_owned(),
            PoolError::Backend(error) => {
                let mut out = "backend request failed: ".to_owned();
                out.append(error.as_str());
                out
            },
        }
    }
}

/// The running machine that a slot holds, where it holds one and knows all about it.
pub open spec fn runtime_of(s: SlotStatus) -> Option<VmRuntime> {
    match (s.name, s.mac, s.tap, s.pid, s.started_at) {
        (Some(name), Some(mac), Some(tap), Some(pid), Some(started_at)) => if s.state
            == SlotState::Occupied {
            Some(VmRuntime { name, mac, tap, pid, state: VmState::Running, started_at })
        } else {
            None
        },
        _ => None,
    }
}

/// The running machine that a slot holds.
pub fn runtime_from_slot_status(status: &SlotStatus) -> (r: Option<VmRuntime>)
    ensures
        r == runtime_of(*status),
{
    if status.state != SlotState::Occupied {
        return None;
    }
    match (&status.name, &status.mac, &status.tap, status.pid, &status.started_at) {
        (Some(name), Some(mac), Some(tap), Some(pid), Some(started_at)) => Some(
            VmRuntime {
                name: name.clone(),
                mac: mac.clone(),
                tap: tap.clone(),
                pid,
                state: VmState::Running,
                started_at: started_at.clone(),
            },
        ),
        _ => None,
    }
}

/// Why a slot cannot be shown as a running machine: it is not occupied, or the first thing that is
/// not known of its machine.
pub open spec fn runtime_or_error(s: SlotStatus) -> Result<VmRuntime, PoolErrorView> {
    if s.state != SlotState::Occupied {
        Err(
            PoolErrorView::InvalidTransition {
                slot: s.slot,
                from: s.state,
                action: "convert_runtime"@,
            },
        )
    } else if s.name is None {
        Err(PoolErrorView::Backend("missing VM name"@))
    } else if s.mac is None {
        Err(PoolErrorView::Backend("missing MAC address"@))
    } else if s.tap is None {
        Err(PoolErrorView::Backend("missing tap device"@))
    } else if s.pid is None {
        Err(PoolErrorView::Backend("missing pid"@))
    } else if s.started_at is None {
        Err(PoolErrorView::Backend("missing started_at"@))
    } else {
        Ok(
            VmRuntime {
                name: s.name->0,
                mac: s.mac->0,
                tap: s.tap->0,
                pid: s.pid->0,
                state: VmState::Running,
                started_at: s.started_at->0,
            },
        )
    }
}

fn missing(what: &str) -> (r: PoolError)
    ensures
        r@ == PoolErrorView::Backend(what@),
{
    PoolError::Backend(what.to_owned())
}

impl VmRuntime {
    /// Shows a slot as the running machine it holds.
    pub fn try_from(status: &SlotStatus) -> (r: Result<VmRuntime, PoolError>)
        ensures
            outcome(r) == runtime_or_error(*status),
    {
        if status.state != SlotState::Occupied {
            return Err(
                PoolError::InvalidTransition {
                    slot: status.slot,
                    from: status.state,
                    action: "convert_runtime",
                },
            );
        }
        let name = match &status.name {
            Some(v) => v.clone(),
            None => {
                return Err(missing("missing VM name"));
            },
        };
        let mac = match &status.mac {
            Some(v) => v.clone(),
            None => {
                return Err(missing("missing MAC address"));
            },
        };
        let tap = match &status.tap {
            Some(v) => v.clone(),
            None => {
                return Err(missing("missing tap device"));
            },
        };
        let pid: u32 = match status.pid {
            Some(v) => v,
            None => {
                return Err(missing("missing pid"));
            },
        };
        let started_at = match &status.started_at {
            Some(v) => v.clone(),
            None => {
                return Err(missing("missing started_at"));
            },
        };
        Ok(VmRuntime { name, mac, tap, pid, state: VmState::Running, started_at })
    }
}

/// A slot can be shown as a running machine exactly when it is listed as one, and as the same one.
pub proof fn law_shown_iff_listed(s: SlotStatus)
    ensures
        runtime_or_error(s) is Ok <==> runtime_of(s) is Some,
        runtime_of(s) matches Some(r) ==> runtime_or_error(s) == Ok::<VmRuntime, PoolErrorView>(r),
{
}

/// The first slot that bears the name.
pub open spec fn slot_named(statuses: Seq<SlotStatus>, name: Seq<char>) -> Option<SlotStatus>
    decreases statuses.len(),
{
    if statuses.len() == 0 {
        None
    } else if statuses[0].name matches Some(n) && n@ == name {
        Some(statuses[0])
    } else {
        slot_named(statuses.skip(1), name)
    }
}

/// The running machines, in the order of their slots.
pub open spec fn running(statuses: Seq<SlotStatus>) -> Seq<VmRuntime>
    decreases statuses.len(),
{
    if statuses.len() == 0 {
        Seq::empty()
    } else {
        match runtime_of(statuses.last()) {
            Some(r) => running(statuses.drop_last()).push(r),
            None => running(statuses.drop_last()),
        }
    }
}

/// The first machine of that name.
pub open spec fn runtime_named(runtimes: Seq<VmRuntime>, name: Seq<char>) -> Option<VmRuntime>
    decreases runtimes.len(),
{
    if runtimes.len() == 0 {
        None
    } else if runtimes[0].name@ == name {
        Some(runtimes[0])
    } else {
        runtime_named(runtimes.skip(1), name)
    }
}

/// The first empty slot.
pub open spec fn first_empty(statuses: Seq<SlotStatus>) -> Option<SlotStatus>
    decreases statuses.len(),
{
    if statuses.len() == 0 {
        None
    } else if statuses[0].state == SlotState::Empty {
        Some(statuses[0])
    } else {
        first_empty(statuses.skip(1))
    }
}

/// How many slots are in a state.
pub open spec fn count_in(statuses: Seq<SlotStatus>, state: SlotState) -> nat
    decreases statuses.len(),
{
    if statuses.len() == 0 {
        0
    } else {
        count_in(statuses.drop_last(), state) + (if statuses.last().state == state {
            1nat
        } else {
            0
        })
    }
}

fn count_state(statuses: &Vec<SlotStatus>, state: SlotState) -> (r: usize)
    ensures
        r == count_in(statuses@, state),
        r <= statuses@.len(),
{
    let mut n: usize = 0;
    let mut i: usize = 0;
    while i < statuses.len()
        invariant
            i <= statuses@.len(),
            n <= i,
            n == count_in(statuses@.take(i as int), state),
        decreases statuses@.len() - i,
    {
        proof {
            assert(statuses@.take(i + 1).drop_last() =~= statuses@.take(i as int));
        }
        if statuses[i].state == state {
            n += 1;
        }
        i += 1;
    }
    proof {
        assert(statuses@.take(statuses@.len() as int) =~= statuses@);
    }
    n
}

/// Finds the first slot that bears the name.
pub fn find_slot_named(statuses: &Vec<SlotStatus>, name: &str) -> (r: Option<SlotStatus>)
    ensures
        r == slot_named(statuses@, name@),
{
    let mut i: usize = 0;
    proof {
        assert(statuses@.skip(0) =~= statuses@);
    }
    while i < statuses.len()
        invariant
            i <= statuses@.len(),
            slot_named(statuses@, name@) == slot_named(statuses@.skip(i as int), name@),
        decreases statuses@.len() - i,
    {
        proof {
            assert(statuses@.skip(i as int)[0] == statuses@[i as int]);
            assert(statuses@.skip(i as int).skip(1) =~= statuses@.skip(i + 1));
        }
        if let Some(n) = &statuses[i].name {
            if same_text(n.as_str(), name) {
                return Some(statuses[i].clone());
            }
        }
        i += 1;
    }
    None
}

/// Finds the first empty slot and gives its number.
pub fn find_empty_slot(statuses: &Vec<SlotStatus>) -> (r: Option<usize>)
    ensures
        match r {
            Some(slot) => first_empty(statuses@) matches Some(s) && s.slot == slot,
            None => first_empty(statuses@) is None,
        },
{
    let mut i: usize = 0;
    proof {
        assert(statuses@.skip(0) =~= statuses@);
    }
    while i < statuses.len()
        invariant
            i <= statuses@.len(),
            first_empty(statuses@) == first_empty(statuses@.skip(i as int)),
        decreases statuses@.len() - i,
    {
        proof {
            assert(statuses@.skip(i as int)[0] == statuses@[i as int]);
            assert(statuses@.skip(i as int).skip(1) =~= statuses@.skip(i + 1));
        }
        if statuses[i].state == SlotState::Empty {
            return Some(statuses[i].slot);
        }
        i += 1;
    }
    None
}

/// Lists the running machines, in the order of their slots.
pub fn running_vms(statuses: &Vec<SlotStatus>) -> (r: Vec<VmRuntime>)
    ensures
        r@ == running(statuses@),
{
    let mut out: Vec<VmRuntime> = Vec::new();
    let mut i: usize = 0;
    while i < statuses.len()
        invariant
            i <= statuses@.len(),
            out@ == running(statuses@.take(i as int)),
        decreases statuses@.len() - i,
    {
        proof {
            assert(statuses@.take(i + 1).drop_last() =~= statuses@.take(i as int));
        }
        if let Some(runtime) = runtime_from_slot_status(&statuses[i]) {
            out.push(runtime);
        }
        i += 1;
    }
    proof {
        assert(statuses@.take(statuses@.len() as int) =~= statuses@);
    }
    out
}

/// Finds the first machine of that name.
pub fn find_runtime_named(runtimes: &Vec<VmRuntime>, name: &str) -> (r: Option<VmRuntime>)
    ensures
        r == runtime_named(runtimes@, name@),
{
    let mut i: usize = 0;
    proof {
        assert(runtimes@.skip(0) =~= runtimes@);
    }
    while i < runtimes.len()
        invariant
            i <= runtimes@.len(),
            runtime_named(runtimes@, name@) == runtime_named(runtimes@.skip(i as int), name@),
        decreases runtimes@.len() - i,
    {
        proof {
            assert(runtimes@.skip(i as int)[0] == runtimes@[i as int]);
            assert(runtimes@.skip(i as int).skip(1) =~= runtimes@.skip(i + 1));
        }
        if same_text(runtimes[i].name.as_str(), name) {
            return Some(runtimes[i].clone());
        }
        i += 1;
    }
    None
}

/// How many slots are in each state.
#[derive(Debug, Clone, Copy, PartialEq, Eq, Structural)]
pub struct PoolOccupancy {
    pub size: usize,
    pub occupied: usize,
    pub booting: usize,
    pub empty: usize,
    pub failed: usize,
}

/// Counts the slots in each state.
pub fn pool_occupancy(statuses: &Vec<SlotStatus>) -> (r: PoolOccupancy)
    ensures
        r.size == statuses@.len(),
        r.occupied == count_in(statuses@, SlotState::Occupied),
        r.booting == count_in(statuses@, SlotState::Booting),
        r.empty == count_in(statuses@, SlotState::Empty),
        r.failed == count_in(statuses@, SlotState::Failed),
        r.occupied + r.booting + r.empty + r.failed == r.size,
{
    proof {
        law_every_slot_is_counted_once(statuses@);
    }
    PoolOccupancy {
        size: statuses.len(),
        occupied: count_state(statuses, SlotState::Occupied),
        booting: count_state(statuses, SlotState::Booting),
        empty: count_state(statuses, SlotState::Empty),
        failed: count_state(statuses, SlotState::Failed),
    }
}

/// Every slot is counted under exactly one state.
pub proof fn law_every_slot_is_counted_once(statuses: Seq<SlotStatus>)
    ensures
        count_in(statuses, SlotState::Occupied) + count_in(statuses, SlotState::Booting) + count_in(
            statuses,
            SlotState::Empty,
        ) + count_in(statuses, SlotState::Failed) == statuses.len(),
    decreases statuses.len(),
{
    if statuses.len() > 0 {
        law_every_slot_is_counted_once(statuses.drop_last());
    }
}

/// "SLOT:STATE(NAME)", with a dash where no machine is assigned.
pub open spec fn slot_summary(s: SlotStatus) -> Seq<char> {
    decimal(s.slot as nat) + ":"@ + state_name(s.state) + "("@ + (match s.name {
        Some(name) => name@,
        None => "-"@,
    }) + ")"@
}

/// The summaries of all slots, with commas between them.
pub open spec fn pool_summary(statuses: Seq<SlotStatus>) -> Seq<char>
    decreases statuses.len(),
{
    if statuses.len() == 0 {
        Seq::empty()
    } else if statuses.len() == 1 {
        slot_summary(statuses[0])
    } else {
        pool_summary(statuses.drop_last()) + ","@ + slot_summary(statuses.last())
    }
}

fn push_slot_summary(out: &mut String, status: &SlotStatus)
    ensures
        final(out)@ == old(out)@ + slot_summary(*status),
{
    push_decimal(out, status.slot as u64);
    out.append(":");
    out.append(status.state.name());
    out.append("(");
    match &status.name {
        Some(name) => {
            out.append(name.as_str());
        },
        None => {
            out.append("-");
        },
    }
    out.append(")");
    proof {
        assert(out@ =~= old(out)@ + slot_summary(*status));
    }
}

/// Summarises all slots in one line.
pub fn format_slot_summary(statuses: &Vec<SlotStatus>) -> (r: String)
    ensures
        r@ == pool_summary(statuses@),
{
    let mut out = String::new();
    let mut i: usize = 0;
    while i < statuses.len()
        invariant
            i <= statuses@.len(),
            out@ == pool_summary(statuses@.take(i as int)),
        decreases statuses@.len() - i,
    {
        let ghost next = statuses@.take(i + 1);
        proof {
            assert(next.drop_last() =~= statuses@.take(i as int));
            assert(next.last() == statuses@[i as int]);
        }
        if i > 0 {
            out.append(",");
        } else {
            assert(out@ =~= Seq::empty());
        }
        push_slot_summary(&mut out, &statuses[i]);
        proof {
            assert(out@ =~= pool_summary(next));
        }
        i += 1;
    }
    proof {
        assert(statuses@.take(statuses@.len() as int) =~= statuses@);
    }
    out
}

} // verus!
