//! The pool of slots: how it grows and shrinks, and what it asks its slot workers.
//!
//! The pool decides; a driver talks to the workers. Each method says what to ask next or, once the
//! answers are in, what comes out.
use vstd::prelude::*;
use vstd::utf8::{
    encode_utf8, encode_utf8_decode_utf8, is_ascii_chars, is_ascii_chars_encode_utf8,
};

use crate::ch_client::{
    is_unix_http_request, opt_str, pair_texts, unix_http_request, HttpMethod, HttpRequest,
};
use crate::io_error::{IoError, IoErrorKind, IoErrorView};
use crate::numbers::{decimal, law_decimal_is_injective, lemma_decimal_digits, push_decimal};
use crate::paths::{
    joined, lemma_parent_of_joined, parent_directory, parent_path, without_blank_pieces,
};
use crate::pool::{
    count_in, find_empty_slot, find_runtime_named, find_slot_named, first_empty, outcome,
    pool_occupancy, running, running_vms, runtime_named, slot_named, PoolError, PoolErrorView,
    ProxyResponse, SlotState, SlotStatus, VmRuntime,
};
use crate::slot_supervisor::{
    reserved, supervised, SlotCommand, Supervisor, SupervisorEvent,
};
use crate::text::{from_utf8_lossy, lossy_text};

verus! {

/// The contents of a list of byte strings.
pub open spec fn byte_lists(list: Seq<Vec<u8>>) -> Seq<Seq<u8>> {
    list.map_values(|b: Vec<u8>| b@)
}

fn copy_bytes(bytes: &Vec<u8>) -> (r: Vec<u8>)
    ensures
        r@ == bytes@,
{
    let r = bytes.clone();
    proof {
        assert(r@ =~= bytes@);
    }
    r
}

fn copy_byte_lists(list: &Vec<Vec<u8>>) -> (r: Vec<Vec<u8>>)
    ensures
        byte_lists(r@) == byte_lists(list@),
{
    let mut out: Vec<Vec<u8>> = Vec::new();
    let mut i: usize = 0;
    while i < list.len()
        invariant
            i <= list@.len(),
            byte_lists(out@) =~= byte_lists(list@).take(i as int),
        decreases list@.len() - i,
    {
        let one = copy_bytes(&list[i]);
        let ghost before = out@;
        out.push(one);
        proof {
            assert(byte_lists(out@) =~= byte_lists(before).push(one@));
        }
        i += 1;
    }
    proof {
        assert(byte_lists(list@).take(list@.len() as int) =~= byte_lists(list@));
    }
    out
}

/// The file name of the socket of a slot.
pub open spec fn socket_name(slot: usize) -> Seq<char> {
    "vmm"@ + decimal(slot as nat) + ".sock"@
}

/// The socket of a slot, in the directory of the pool.
pub open spec fn socket_path(vm_path: Seq<u8>, slot: usize) -> Seq<u8> {
    joined(vm_path, encode_utf8(socket_name(slot)))
}

fn slot_socket_path(vm_path: &Vec<u8>, slot: usize) -> (r: Vec<u8>)
    ensures
        r@ == socket_path(vm_path@, slot),
{
    let mut name = "vmm".to_owned();
    push_decimal(&mut name, slot as u64);
    name.append(".sock");
    let mut out = copy_bytes(vm_path);
    if out.len() > 0 && out[out.len() - 1] != 47 {
        out.push(47);
    }
    let mut tail = name.as_str().as_bytes_vec();
    out.append(&mut tail);
    out
}

/// What a slot worker is started with.
pub struct SlotLaunch {
    pub slot: usize,
    pub program: String,
    pub args: Vec<Vec<u8>>,
    pub bridge: Option<String>,
    pub api_socket: Vec<u8>,
}

/// A `SlotLaunch` with its texts as sequences.
pub struct LaunchView {
    pub slot: usize,
    pub program: Seq<char>,
    pub args: Seq<Seq<u8>>,
    pub bridge: Option<String>,
    pub api_socket: Seq<u8>,
}

impl View for SlotLaunch {
    type V = LaunchView;

    open spec fn view(&self) -> LaunchView {
        LaunchView {
            slot: self.slot,
            program: self.program@,
            args: byte_lists(self.args@),
            bridge: self.bridge,
            api_socket: self.api_socket@,
        }
    }
}

/// What the environment of a hypervisor tells it: the number of its slot, and the directory of its
/// socket.
pub open spec fn launch_environment(l: LaunchView) -> Seq<(Seq<char>, Seq<char>)> {
    seq![
        ("VMM_SLOT"@, decimal(l.slot as nat)),
        (
            "VMM_PATH"@,
            match parent_path(l.api_socket) {
                Some(directory) => lossy_text(directory),
                None => "/"@,
            },
        ),
    ]
}

impl SlotLaunch {
    /// The environment variables that a hypervisor is started with, besides those it inherits.
    pub fn environment(&self) -> (r: Vec<(String, String)>)
        ensures
            pair_texts(r@) == launch_environment(self@),
    {
        let mut number = String::new();
        push_decimal(&mut number, self.slot as u64);
        proof {
            assert(number@ =~= decimal(self.slot as nat));
        }
        let directory = match parent_directory(&self.api_socket) {
            Some(bytes) => from_utf8_lossy(&bytes),
            None => "/".to_owned(),
        };
        let mut out: Vec<(String, String)> = Vec::new();
        out.push(("VMM_SLOT".to_owned(), number));
        out.push(("VMM_PATH".to_owned(), directory));
        proof {
            assert(pair_texts(out@) =~= launch_environment(self@));
        }
        out
    }
}

/// What the worker of a slot is started with: the common arguments, followed by the path of the
/// slot's own socket.
pub open spec fn launch(
    slot: usize,
    program: Seq<char>,
    args: Seq<Seq<u8>>,
    bridge: Option<String>,
    vm_path: Seq<u8>,
) -> LaunchView {
    let api_socket = socket_path(vm_path, slot);
    LaunchView {
        slot,
        program,
        args: args.push(encode_utf8("--api-socket"@)).push(api_socket),
        bridge,
        api_socket,
    }
}

/// Works out what the worker of a slot is started with.
pub fn initialize_slot(
    slot: usize,
    program: &String,
    args: &Vec<Vec<u8>>,
    bridge: &Option<String>,
    vm_path: &Vec<u8>,
) -> (r: SlotLaunch)
    ensures
        r@ == launch(slot, program@, byte_lists(args@), *bridge, vm_path@),
{
    let api_socket = slot_socket_path(vm_path, slot);
    let mut all = copy_byte_lists(args);
    let ghost common = all@;
    let flag = "--api-socket".as_bytes_vec();
    all.push(flag);
    let path = copy_bytes(&api_socket);
    all.push(path);
    proof {
        assert(byte_lists(all@) =~= byte_lists(common).push(flag@).push(path@));
    }
    SlotLaunch { slot, program: program.clone(), args: all, bridge: bridge.clone(), api_socket }
}

/// The pool of slots. Times are in nanoseconds.
pub struct ProcessPool {
    pub slots: usize,
    pub vm_path: Vec<u8>,
    pub program: String,
    pub args: Vec<Vec<u8>>,
    pub bridge: Option<String>,
    pub min_pool_size: usize,
    pub max_pool_size: usize,
    pub scale_down_cooldown: u128,
    pub last_scale_down_at: Option<u128>,
}

/// The contents of a list of launches.
pub open spec fn launch_views(list: Seq<SlotLaunch>) -> Seq<LaunchView> {
    list.map_values(|l: SlotLaunch| l@)
}

impl ProcessPool {
    /// What the worker of a slot of this pool is started with.
    pub open spec fn launch_of(self, slot: usize) -> LaunchView {
        launch(slot, self.program@, byte_lists(self.args@), self.bridge, self.vm_path@)
    }

    /// The launches of the slots from `from` up to `to`.
    pub open spec fn launches(self, from: usize, to: usize) -> Seq<LaunchView> {
        Seq::new((to - from) as nat, |i: int| self.launch_of((from + i) as usize))
    }

    /// The pool is within the size it was made for.
    pub open spec fn within_limits(self) -> bool {
        self.min_pool_size <= self.slots <= self.max_pool_size
    }

    fn launch_range(&self, from: usize, to: usize) -> (r: Vec<SlotLaunch>)
        requires
            from <= to,
        ensures
            launch_views(r@) == self.launches(from, to),
    {
        let mut out: Vec<SlotLaunch> = Vec::new();
        let mut slot: usize = from;
        while slot < to
            invariant
                from <= slot <= to,
                launch_views(out@) =~= self.launches(from, slot),
            decreases to - slot,
        {
            let one = initialize_slot(
                slot,
                &self.program,
                &self.args,
                &self.bridge,
                &self.vm_path,
            );
            let ghost before = out@;
            out.push(one);
            proof {
                assert(launch_views(out@) =~= launch_views(before).push(one@));
            }
            slot += 1;
        }
        out
    }

    /// Makes a pool of the smallest size. Its workers are to be started as listed.
    pub fn spawn(
        min_pool_size: usize,
        max_pool_size: usize,
        scale_down_cooldown: u128,
        program: String,
        args: Vec<Vec<u8>>,
        bridge: Option<String>,
        vm_path: Vec<u8>,
    ) -> (r: Result<(ProcessPool, Vec<SlotLaunch>), IoError>)
        ensures
            r is Ok <==> min_pool_size <= max_pool_size,
            r matches Ok((pool, workers)) ==> {
                &&& pool == (ProcessPool {
                    slots: min_pool_size,
                    vm_path,
                    program,
                    args,
                    bridge,
                    min_pool_size,
                    max_pool_size,
                    scale_down_cooldown,
                    last_scale_down_at: None,
                })
                &&& pool.within_limits()
                &&& launch_views(workers@) == pool.launches(0, min_pool_size)
            },
            r matches Err(e) ==> e@ == (IoErrorView {
                kind: IoErrorKind::InvalidInput,
                message: "max_pool_size ("@ + decimal(max_pool_size as nat)
                    + ") must be >= min_pool_size ("@ + decimal(min_pool_size as nat) + ")"@,
            }),
    {
        if max_pool_size < min_pool_size {
            let mut message = "max_pool_size (".to_owned();
            push_decimal(&mut message, max_pool_size as u64);
            message.append(") must be >= min_pool_size (");
            push_decimal(&mut message, min_pool_size as u64);
            message.append(")");
            return Err(IoError { kind: IoErrorKind::InvalidInput, message });
        }
        let pool = ProcessPool {
            slots: min_pool_size,
            vm_path,
            program,
            args,
            bridge,
            min_pool_size,
            max_pool_size,
            scale_down_cooldown,
            last_scale_down_at: None,
        };
        let workers = pool.launch_range(0, min_pool_size);
        Ok((pool, workers))
    }

    /// Adds slots after the last one. Their workers are to be started as listed.
    pub fn extend(&mut self, additional_size: usize) -> (r: Vec<SlotLaunch>)
        requires
            old(self).slots + additional_size <= usize::MAX,
        ensures
            *final(self) == (ProcessPool {
                slots: (old(self).slots + additional_size) as usize,
                ..*old(self)
            }),
            launch_views(r@) == old(self).launches(old(self).slots, final(self).slots),
    {
        let current_size: usize = self.slots;
        let new_size: usize = current_size + additional_size;
        let workers = self.launch_range(current_size, new_size);
        self.slots = new_size;
        workers
    }

    /// The number of slots.
    pub fn size(&self) -> (r: usize)
        ensures
            r == self.slots,
    {
        self.slots
    }

    /// The socket of a slot.
    pub fn vm_socket_path(&self, slot: usize) -> (r: Vec<u8>)
        ensures
            r@ == socket_path(self.vm_path@, slot),
    {
        slot_socket_path(&self.vm_path, slot)
    }
}

/// The command to send to a worker, or the error of asking a slot that does not exist.
pub open spec fn addressed(slots: usize, slot: usize, command: SlotCommand) -> Result<
    SlotCommand,
    PoolErrorView,
> {
    if slot < slots {
        Ok(command)
    } else {
        Err(PoolErrorView::SlotNotFound(slot))
    }
}

/// What an answer of a worker comes to. A worker that is gone gives none.
pub open spec fn settled(answer: Option<Result<SlotStatus, PoolError>>) -> Result<
    SlotStatus,
    PoolErrorView,
> {
    match answer {
        Some(r) => outcome(r),
        None => Err(PoolErrorView::ChannelClosed),
    }
}

impl ProcessPool {
    fn address(&self, slot: usize, command: SlotCommand) -> (r: Result<SlotCommand, PoolError>)
        ensures
            outcome(r) == addressed(self.slots, slot, command),
    {
        if slot < self.slots {
            Ok(command)
        } else {
            Err(PoolError::SlotNotFound(slot))
        }
    }

    /// What to send to the worker of `slot` to learn its status.
    pub fn get_vm_slot_status(&self, slot: usize) -> (r: Result<SlotCommand, PoolError>)
        ensures
            outcome(r) == addressed(self.slots, slot, SlotCommand::GetVmStatus),
    {
        self.address(slot, SlotCommand::GetVmStatus)
    }

    /// What to send to the worker of `slot` to reserve it for a machine.
    pub fn reserve_vm_slot(&self, slot: usize, name: String, mac: String, tap: String) -> (r: Result<
        SlotCommand,
        PoolError,
    >)
        ensures
            outcome(r) == addressed(self.slots, slot, SlotCommand::ReserveVm { name, mac, tap }),
    {
        self.address(slot, SlotCommand::ReserveVm { name, mac, tap })
    }

    /// What to send to the worker of `slot` once its machine has booted.
    pub fn mark_vm_slot_booted(&self, slot: usize, started_at: String) -> (r: Result<
        SlotCommand,
        PoolError,
    >)
        ensures
            outcome(r) == addressed(self.slots, slot, SlotCommand::MarkVmBooted { started_at }),
    {
        self.address(slot, SlotCommand::MarkVmBooted { started_at })
    }

    /// What to send to the worker of `slot` to end its machine.
    pub fn release_vm_slot(&self, slot: usize) -> (r: Result<SlotCommand, PoolError>)
        ensures
            outcome(r) == addressed(self.slots, slot, SlotCommand::ReleaseVm),
    {
        self.address(slot, SlotCommand::ReleaseVm)
    }

    /// What to send to the worker of `slot` to empty it, whatever state it is in.
    pub fn reset_vm_slot(&self, slot: usize) -> (r: Result<SlotCommand, PoolError>)
        ensures
            outcome(r) == addressed(self.slots, slot, SlotCommand::ResetVm),
    {
        self.address(slot, SlotCommand::ResetVm)
    }

    /// What the answer of a worker comes to.
    pub fn settle(answer: Option<Result<SlotStatus, PoolError>>) -> (r: Result<
        SlotStatus,
        PoolError,
    >)
        ensures
            outcome(r) == settled(answer),
    {
        match answer {
            Some(r) => r,
            None => Err(PoolError::ChannelClosed),
        }
    }
}

/// How far a listing of all slots has come.
pub enum ListingStep {
    /// The worker of this slot is to be asked for its status.
    Ask { slot: usize, so_far: Vec<SlotStatus> },
    Done(Result<Vec<SlotStatus>, PoolError>),
}

/// A `ListingStep` with its list as a sequence.
pub enum ListingView {
    Ask { slot: usize, so_far: Seq<SlotStatus> },
    Done(Result<Seq<SlotStatus>, PoolErrorView>),
}

impl View for ListingStep {
    type V = ListingView;

    open spec fn view(&self) -> ListingView {
        match *self {
            ListingStep::Ask { slot, so_far } => ListingView::Ask { slot, so_far: so_far@ },
            ListingStep::Done(r) => ListingView::Done(listing_outcome(r)),
        }
    }
}

/// The outcome of a listing, with the list as a sequence and the error by its view.
pub open spec fn listing_outcome(r: Result<Vec<SlotStatus>, PoolError>) -> Result<
    Seq<SlotStatus>,
    PoolErrorView,
> {
    match r {
        Ok(list) => Ok(list@),
        Err(e) => Err(e@),
    }
}

/// What a listing does next: the slots are asked in order until all have answered.
pub open spec fn listing_next(slots: usize, so_far: Seq<SlotStatus>) -> ListingView {
    if so_far.len() < slots {
        ListingView::Ask { slot: so_far.len() as usize, so_far }
    } else {
        ListingView::Done(Ok(so_far))
    }
}

/// What an answer does to a listing.
pub open spec fn listing_after(
    slots: usize,
    so_far: Seq<SlotStatus>,
    answer: Result<SlotStatus, PoolErrorView>,
) -> ListingView {
    match answer {
        Ok(status) => listing_next(slots, so_far.push(status)),
        Err(e) => ListingView::Done(Err(e)),
    }
}

/// What a listing comes to when the slots that are asked give these answers, one after the other.
/// Where they run out it stands where the last one has brought it.
pub open spec fn listing_run(
    slots: usize,
    step: ListingView,
    answers: Seq<Result<SlotStatus, PoolErrorView>>,
) -> ListingView
    decreases answers.len(),
{
    match step {
        ListingView::Ask { so_far, .. } if answers.len() > 0 => listing_run(
            slots,
            listing_after(slots, so_far, answers[0]),
            answers.skip(1),
        ),
        _ => step,
    }
}

impl ProcessPool {
    fn next_to_list(&self, so_far: Vec<SlotStatus>) -> (r: ListingStep)
        ensures
            r@ == listing_next(self.slots, so_far@),
    {
        if so_far.len() < self.slots {
            ListingStep::Ask { slot: so_far.len(), so_far }
        } else {
            ListingStep::Done(Ok(so_far))
        }
    }

    /// Begins a listing of all slots.
    pub fn start_listing(&self) -> (r: ListingStep)
        ensures
            r@ == listing_next(self.slots, Seq::empty()),
    {
        self.next_to_list(Vec::new())
    }

    /// Takes the status of the slot that was asked last and goes on with the listing.
    pub fn list_vm_slots(
        &self,
        so_far: Vec<SlotStatus>,
        answer: Result<SlotStatus, PoolError>,
    ) -> (r: ListingStep)
        ensures
            r@ == listing_after(self.slots, so_far@, outcome(answer)),
    {
        match answer {
            Ok(status) => {
                let mut list = so_far;
                list.push(status);
                self.next_to_list(list)
            },
            Err(e) => ListingStep::Done(Err(e)),
        }
    }

    /// How many slots are in use and how many are idle.
    pub fn pool_usage(listing: Result<Vec<SlotStatus>, PoolError>) -> (r: Result<
        (usize, usize),
        PoolError,
    >)
        ensures
            match listing {
                Ok(list) => {
                    let idle = count_in(list@, SlotState::Empty);
                    r matches Ok(usage) && usage.1 == idle && usage.0 == list@.len() - idle
                },
                Err(e) => r == Err::<(usize, usize), PoolError>(e),
            },
    {
        match listing {
            Ok(list) => {
                let counts = pool_occupancy(&list);
                Ok((counts.size - counts.empty, counts.empty))
            },
            Err(e) => Err(e),
        }
    }

    /// The first slot that bears the name.
    pub fn find_vm_slot_status_by_name(
        listing: Result<Vec<SlotStatus>, PoolError>,
        name: &str,
    ) -> (r: Result<Option<SlotStatus>, PoolError>)
        ensures
            match listing {
                Ok(list) => r == Ok::<Option<SlotStatus>, PoolError>(slot_named(list@, name@)),
                Err(e) => r == Err::<Option<SlotStatus>, PoolError>(e),
            },
    {
        match listing {
            Ok(list) => Ok(find_slot_named(&list, name)),
            Err(e) => Err(e),
        }
    }

    /// The running machines, in the order of their slots.
    pub fn list_running_vms(listing: Result<Vec<SlotStatus>, PoolError>) -> (r: Result<
        Vec<VmRuntime>,
        PoolError,
    >)
        ensures
            match listing {
                Ok(list) => r matches Ok(vms) && vms@ == running(list@),
                Err(e) => r == Err::<Vec<VmRuntime>, PoolError>(e),
            },
    {
        match listing {
            Ok(list) => Ok(running_vms(&list)),
            Err(e) => Err(e),
        }
    }

    /// The first running machine of that name.
    pub fn find_vm_runtime_by_name(
        listing: Result<Vec<SlotStatus>, PoolError>,
        name: &str,
    ) -> (r: Result<Option<VmRuntime>, PoolError>)
        ensures
            match listing {
                Ok(list) => r == Ok::<Option<VmRuntime>, PoolError>(
                    runtime_named(running(list@), name@),
                ),
                Err(e) => r == Err::<Option<VmRuntime>, PoolError>(e),
            },
    {
        match listing {
            Ok(list) => Ok(find_runtime_named(&running_vms(&list), name)),
            Err(e) => Err(e),
        }
    }
}

/// A machine for which a slot is being looked for.
pub struct Allocation {
    pub name: String,
    pub mac: String,
    /// The name is known not to be taken.
    pub name_checked: bool,
}

/// How far the search for a slot has come.
pub enum AllocationStep {
    /// All slots are to be listed.
    List(Allocation),
    /// These workers are to be started, and then all slots to be listed.
    Grow { allocation: Allocation, workers: Vec<SlotLaunch> },
    /// This slot is to be reserved; the outcome of that is the outcome of the allocation.
    Reserve { slot: usize, name: String, mac: String, tap: String },
    Failed(PoolError),
}

/// An `AllocationStep` with its texts as sequences.
pub enum AllocationView {
    List(Allocation),
    Grow { allocation: Allocation, workers: Seq<LaunchView> },
    Reserve { slot: usize, name: String, mac: String, tap: Seq<char> },
    Failed(PoolErrorView),
}

impl View for AllocationStep {
    type V = AllocationView;

    open spec fn view(&self) -> AllocationView {
        match *self {
            AllocationStep::List(a) => AllocationView::List(a),
            AllocationStep::Grow { allocation, workers } => AllocationView::Grow {
                allocation,
                workers: launch_views(workers@),
            },
            AllocationStep::Reserve { slot, name, mac, tap } => AllocationView::Reserve {
                slot,
                name,
                mac,
                tap: tap@,
            },
            AllocationStep::Failed(e) => AllocationView::Failed(e@),
        }
    }
}

/// The name of the tap device of a slot.
pub open spec fn tap_name(slot: usize) -> Seq<char> {
    "tap"@ + decimal(slot as nat)
}

/// The pool with one slot more.
pub open spec fn grown(pool: ProcessPool) -> ProcessPool {
    ProcessPool { slots: (pool.slots + 1) as usize, ..pool }
}

/// What a listing of the slots means for an allocation: first the name must not be taken; then the
/// first empty slot is reserved, and where there is none the pool grows by one up to its limit.
pub open spec fn allocated(
    pool: ProcessPool,
    a: Allocation,
    listing: Result<Seq<SlotStatus>, PoolErrorView>,
) -> (ProcessPool, AllocationView) {
    match listing {
        Err(e) => (pool, AllocationView::Failed(e)),
        Ok(list) => if !a.name_checked {
            if slot_named(list, a.name@) is Some {
                (pool, AllocationView::Failed(PoolErrorView::VmAlreadyRunning(a.name@)))
            } else {
                (pool, AllocationView::List(Allocation { name_checked: true, ..a }))
            }
        } else {
            match first_empty(list) {
                Some(s) => (
                    pool,
                    AllocationView::Reserve {
                        slot: s.slot,
                        name: a.name,
                        mac: a.mac,
                        tap: tap_name(s.slot),
                    },
                ),
                None => if pool.slots >= pool.max_pool_size {
                    (pool, AllocationView::Failed(PoolErrorView::NoAvailableSlot))
                } else {
                    (
                        grown(pool),
                        AllocationView::Grow {
                            allocation: a,
                            workers: pool.launches(pool.slots, (pool.slots + 1) as usize),
                        },
                    )
                },
            }
        },
    }
}

impl ProcessPool {
    /// Begins to look for a slot. The first thing to do is to list all slots.
    pub fn start_allocation(name: String, mac: String) -> (r: Allocation)
        ensures
            r == (Allocation { name, mac, name_checked: false }),
    {
        Allocation { name, mac, name_checked: false }
    }

    /// Takes a listing of all slots and goes on looking for a slot.
    pub fn allocate_vm_slot(
        &mut self,
        allocation: Allocation,
        listing: Result<Vec<SlotStatus>, PoolError>,
    ) -> (r: AllocationStep)
        ensures
            (*final(self), r@) == allocated(*old(self), allocation, listing_outcome(listing)),
    {
        let list = match listing {
            Ok(list) => list,
            Err(e) => {
                return AllocationStep::Failed(e);
            },
        };
        if !allocation.name_checked {
            return match find_slot_named(&list, allocation.name.as_str()) {
                Some(_) => AllocationStep::Failed(PoolError::VmAlreadyRunning(allocation.name)),
                None => AllocationStep::List(
                    Allocation { name: allocation.name, mac: allocation.mac, name_checked: true },
                ),
            };
        }
        if let Some(slot) = find_empty_slot(&list) {
            let mut tap = "tap".to_owned();
            push_decimal(&mut tap, slot as u64);
            return AllocationStep::Reserve {
                slot,
                name: allocation.name,
                mac: allocation.mac,
                tap,
            };
        }
        if self.slots >= self.max_pool_size {
            return AllocationStep::Failed(PoolError::NoAvailableSlot);
        }
        let workers = self.extend(1);
        AllocationStep::Grow { allocation, workers }
    }
}

/// The time from `since` to `now`; none where `now` is the earlier one.
pub open spec fn elapsed(since: u128, now: u128) -> nat {
    if since <= now {
        (now - since) as nat
    } else {
        0
    }
}

/// The pool has slots to spare and did not shrink within the cooldown.
pub open spec fn may_shrink(pool: ProcessPool, now: u128) -> bool {
    &&& pool.slots > pool.min_pool_size
    &&& pool.last_scale_down_at matches Some(last) ==> elapsed(last, now)
        >= pool.scale_down_cooldown
}

/// The pool after the status of its last slot is known: that slot is gone if it is empty.
pub open spec fn shrunk(pool: ProcessPool, last: SlotStatus) -> ProcessPool {
    if last.state == SlotState::Empty {
        ProcessPool { slots: (pool.slots - 1) as usize, ..pool }
    } else {
        pool
    }
}

/// The pool after it has shrunk at this time.
pub open spec fn cooling(pool: ProcessPool, now: u128) -> ProcessPool {
    ProcessPool { last_scale_down_at: Some(now), ..pool }
}

impl ProcessPool {
    /// The slot that a tick at this time would take away, if its worker says that it is empty.
    pub fn autoscale_tick(&self, now: u128) -> (r: Option<usize>)
        ensures
            r == (if may_shrink(*self, now) {
                Some((self.slots - 1) as usize)
            } else {
                None
            }),
    {
        if self.slots <= self.min_pool_size {
            return None;
        }
        if let Some(last) = self.last_scale_down_at {
            let past: u128 = if last <= now {
                now - last
            } else {
                0
            };
            if past < self.scale_down_cooldown {
                return None;
            }
        }
        Some(self.slots - 1)
    }

    /// Takes the status of the last slot and takes the slot away if it is empty. The worker is then
    /// to be ended and `finish_scale_down` to be told when that was done.
    pub fn scale_down(&mut self, status: Result<SlotStatus, PoolError>) -> (r: Result<
        bool,
        PoolError,
    >)
        requires
            old(self).slots > old(self).min_pool_size,
        ensures
            match status {
                Err(e) => *final(self) == *old(self) && r == Err::<bool, PoolError>(e),
                Ok(s) => {
                    &&& *final(self) == shrunk(*old(self), s)
                    &&& r == Ok::<bool, PoolError>(s.state == SlotState::Empty)
                },
            },
    {
        match status {
            Err(e) => Err(e),
            Ok(s) => {
                if s.state != SlotState::Empty {
                    return Ok(false);
                }
                self.slots = self.slots - 1;
                Ok(true)
            },
        }
    }

    /// Remembers when the pool last shrank; the cooldown runs from here.
    pub fn finish_scale_down(&mut self, now: u128)
        ensures
            *final(self) == cooling(*old(self), now),
    {
        self.last_scale_down_at = Some(now);
    }

    /// Gives up all slots. That many workers are to be told to end and waited for.
    pub fn shutdown(&mut self) -> (r: usize)
        ensures
            r == old(self).slots,
            *final(self) == (ProcessPool { slots: 0, ..*old(self) }),
    {
        let workers: usize = self.slots;
        self.slots = 0;
        workers
    }
}

/// A request and the socket that it is sent to.
pub struct ProxyRequest {
    pub socket_path: Vec<u8>,
    pub request: HttpRequest,
}

impl ProcessPool {
    /// The request to a hypervisor, without a body type.
    pub fn proxy_vm_request(
        &self,
        slot: usize,
        method: HttpMethod,
        path: &str,
        body: Vec<u8>,
    ) -> (r: ProxyRequest)
        ensures
            r.socket_path@ == socket_path(self.vm_path@, slot),
            is_unix_http_request(r.request, method, path@, body@, None),
    {
        self.proxy_vm_request_with_content_type(slot, method, path, body, None)
    }

    /// The request to a hypervisor.
    pub fn proxy_vm_request_with_content_type(
        &self,
        slot: usize,
        method: HttpMethod,
        path: &str,
        body: Vec<u8>,
        content_type: Option<&str>,
    ) -> (r: ProxyRequest)
        ensures
            r.socket_path@ == socket_path(self.vm_path@, slot),
            is_unix_http_request(r.request, method, path@, body@, opt_str(content_type)),
    {
        ProxyRequest {
            socket_path: self.vm_socket_path(slot),
            request: unix_http_request(method, path, body, content_type),
        }
    }

    /// What the sending of a request came to.
    pub fn proxy_outcome(sent: Result<ProxyResponse, IoError>) -> (r: Result<
        ProxyResponse,
        PoolError,
    >)
        ensures
            outcome(r) == (match sent {
                Ok(response) => Ok::<ProxyResponse, PoolErrorView>(response),
                Err(e) => Err(PoolErrorView::Backend(e.message@)),
            }),
    {
        match sent {
            Ok(response) => Ok(response),
            Err(e) => Err(PoolError::Backend(e.message)),
        }
    }
}

/// A listing succeeds exactly when every slot answers, and then holds the answers in the order of
/// the slots; otherwise it fails with the first failure.
pub proof fn law_listing_collects_every_slot(
    slots: usize,
    answers: Seq<Result<SlotStatus, PoolErrorView>>,
)
    requires
        answers.len() == slots,
    ensures
        ({
            let listed = listing_run(slots, listing_next(slots, Seq::empty()), answers);
            &&& (forall|i: int| 0 <= i < slots ==> #[trigger] answers[i] is Ok) ==> listed
                == ListingView::Done(
                Ok(answers.map_values(|a: Result<SlotStatus, PoolErrorView>| a->Ok_0)),
            )
            &&& forall|k: int|
                0 <= k < slots && (#[trigger] answers[k] is Err) && (forall|i: int|
                    0 <= i < k ==> #[trigger] answers[i] is Ok) ==> listed == ListingView::Done(
                    Err(answers[k]->Err_0),
                )
        }),
{
    let statuses = answers.map_values(|a: Result<SlotStatus, PoolErrorView>| a->Ok_0);
    if forall|i: int| 0 <= i < slots ==> #[trigger] answers[i] is Ok {
        lemma_listing_of_answers(slots, Seq::empty(), answers);
        assert(Seq::<SlotStatus>::empty() + statuses =~= statuses);
    }
    assert forall|k: int|
        0 <= k < slots && (#[trigger] answers[k] is Err) && (forall|i: int|
            0 <= i < k ==> #[trigger] answers[i] is Ok) implies listing_run(
        slots,
        listing_next(slots, Seq::empty()),
        answers,
    ) == ListingView::Done(Err(answers[k]->Err_0)) by {
        lemma_listing_of_failure(slots, Seq::empty(), answers, k);
    }
}

proof fn lemma_listing_of_answers(
    slots: usize,
    so_far: Seq<SlotStatus>,
    answers: Seq<Result<SlotStatus, PoolErrorView>>,
)
    requires
        so_far.len() + answers.len() == slots,
        forall|i: int| 0 <= i < answers.len() ==> #[trigger] answers[i] is Ok,
    ensures
        listing_run(slots, listing_next(slots, so_far), answers) == ListingView::Done(
            Ok(so_far + answers.map_values(|a: Result<SlotStatus, PoolErrorView>| a->Ok_0)),
        ),
    decreases answers.len(),
{
    let pick = |a: Result<SlotStatus, PoolErrorView>| a->Ok_0;
    if answers.len() == 0 {
        assert(so_far + answers.map_values(pick) =~= so_far);
    } else {
        let rest = answers.skip(1);
        let next = so_far.push(answers[0]->Ok_0);
        lemma_listing_of_answers(slots, next, rest);
        assert(next + rest.map_values(pick) =~= so_far + answers.map_values(pick));
    }
}

proof fn lemma_listing_of_failure(
    slots: usize,
    so_far: Seq<SlotStatus>,
    answers: Seq<Result<SlotStatus, PoolErrorView>>,
    k: int,
)
    requires
        so_far.len() + answers.len() == slots,
        0 <= k < answers.len(),
        answers[k] is Err,
        forall|i: int| 0 <= i < k ==> #[trigger] answers[i] is Ok,
    ensures
        listing_run(slots, listing_next(slots, so_far), answers) == ListingView::Done(
            Err(answers[k]->Err_0),
        ),
    decreases answers.len(),
{
    let rest = answers.skip(1);
    if k == 0 {
        let failed = ListingView::Done(Err(answers[0]->Err_0));
        assert(listing_run(slots, failed, rest) == failed);
    } else {
        lemma_listing_of_failure(slots, so_far.push(answers[0]->Ok_0), rest, k - 1);
    }
}

/// Every slot has a socket of its own.
pub proof fn law_sockets_are_distinct(vm_path: Seq<u8>, a: usize, b: usize)
    requires
        socket_path(vm_path, a) == socket_path(vm_path, b),
    ensures
        a == b,
{
    let base = if vm_path.len() > 0 && vm_path.last() != 47u8 {
        vm_path.push(47u8)
    } else {
        vm_path
    };
    let x = encode_utf8(socket_name(a));
    let y = encode_utf8(socket_name(b));
    assert(socket_path(vm_path, a) == base + x);
    assert(socket_path(vm_path, b) == base + y);
    assert((base + x).skip(base.len() as int) =~= x);
    assert((base + y).skip(base.len() as int) =~= y);
    encode_utf8_decode_utf8(socket_name(a));
    encode_utf8_decode_utf8(socket_name(b));
    let m = decimal(a as nat);
    let n = decimal(b as nat);
    assert(socket_name(a) == socket_name(b));
    assert(socket_name(a).len() == "vmm"@.len() + m.len() + ".sock"@.len());
    assert(socket_name(a).subrange("vmm"@.len() as int, ("vmm"@.len() + m.len()) as int) =~= m);
    assert(socket_name(b).subrange("vmm"@.len() as int, ("vmm"@.len() + n.len()) as int) =~= n);
    law_decimal_is_injective(a as nat, b as nat);
}

/// A hypervisor is told the number of its slot and the directory of the pool, in which its socket
/// lies.
pub proof fn law_hypervisor_is_told_its_directory(
    slot: usize,
    program: Seq<char>,
    args: Seq<Seq<u8>>,
    bridge: Option<String>,
    vm_path: Seq<u8>,
)
    ensures
        launch_environment(launch(slot, program, args, bridge, vm_path)) == seq![
            ("VMM_SLOT"@, decimal(slot as nat)),
            ("VMM_PATH"@, lossy_text(without_blank_pieces(vm_path))),
        ],
{
    let name = socket_name(slot);
    reveal_strlit("vmm");
    reveal_strlit(".sock");
    lemma_decimal_digits(slot as nat);
    assert forall|i: int| 0 <= i < name.len() implies '.' <= #[trigger] name[i] <= 'v' && name[i]
        != '/' by {}
    assert(is_ascii_chars(name));
    is_ascii_chars_encode_utf8(name);
    lemma_parent_of_joined(vm_path, encode_utf8(name));
}

/// Every slot has a tap device of its own.
pub proof fn law_tap_devices_are_distinct(a: usize, b: usize)
    requires
        tap_name(a) == tap_name(b),
    ensures
        a == b,
{
    assert(tap_name(a).skip("tap"@.len() as int) =~= decimal(a as nat));
    assert(tap_name(b).skip("tap"@.len() as int) =~= decimal(b as nat));
    law_decimal_is_injective(a as nat, b as nat);
}

proof fn lemma_first_empty(list: Seq<SlotStatus>)
    ensures
        match first_empty(list) {
            Some(s) => exists|i: int|
                0 <= i < list.len() && #[trigger] list[i] == s && s.state == SlotState::Empty && (
                forall|j: int| 0 <= j < i ==> (#[trigger] list[j]).state != SlotState::Empty),
            None => forall|i: int|
                0 <= i < list.len() ==> (#[trigger] list[i]).state != SlotState::Empty,
        },
    decreases list.len(),
{
    if list.len() > 0 {
        let rest = list.skip(1);
        if list[0].state == SlotState::Empty {
            assert(list[0] == first_empty(list)->0);
        } else {
            lemma_first_empty(rest);
            match first_empty(rest) {
                Some(s) => {
                    let i = choose|i: int|
                        0 <= i < rest.len() && #[trigger] rest[i] == s && s.state
                            == SlotState::Empty && (forall|j: int|
                            0 <= j < i ==> (#[trigger] rest[j]).state != SlotState::Empty);
                    assert(list[i + 1] == s);
                    assert forall|j: int| 0 <= j < i + 1 implies (#[trigger] list[j]).state
                        != SlotState::Empty by {
                        if j > 0 {
                            assert(rest[j - 1] == list[j]);
                        }
                    }
                },
                None => {
                    assert forall|j: int| 0 <= j < list.len() implies (#[trigger] list[j]).state
                        != SlotState::Empty by {
                        if j > 0 {
                            assert(rest[j - 1] == list[j]);
                        }
                    }
                },
            }
        }
    }
}

/// The slot bears the name.
pub open spec fn bears(s: SlotStatus, name: Seq<char>) -> bool {
    s.name matches Some(n) && n@ == name
}

/// Some slot bears the name.
pub open spec fn name_taken(list: Seq<SlotStatus>, name: Seq<char>) -> bool {
    exists|i: int| 0 <= i < list.len() && bears(#[trigger] list[i], name)
}

/// A slot is found by a name exactly when some slot bears it.
pub proof fn lemma_slot_named(list: Seq<SlotStatus>, name: Seq<char>)
    ensures
        slot_named(list, name) is Some <==> name_taken(list, name),
    decreases list.len(),
{
    if list.len() > 0 {
        let rest = list.skip(1);
        lemma_slot_named(rest, name);
        if name_taken(rest, name) {
            let i = choose|i: int| 0 <= i < rest.len() && bears(#[trigger] rest[i], name);
            assert(list[i + 1] == rest[i]);
        }
        if name_taken(list, name) {
            let i = choose|i: int| 0 <= i < list.len() && bears(#[trigger] list[i], name);
            if i > 0 {
                assert(rest[i - 1] == list[i]);
            }
        }
    }
}

/// A machine is refused as already running exactly when a slot bears its name; otherwise its search
/// goes on.
pub proof fn law_taken_name_is_refused(pool: ProcessPool, a: Allocation, list: Seq<SlotStatus>)
    requires
        !a.name_checked,
    ensures
        allocated(pool, a, Ok(list)).1 == (if name_taken(list, a.name@) {
            AllocationView::Failed(PoolErrorView::VmAlreadyRunning(a.name@))
        } else {
            AllocationView::List(Allocation { name_checked: true, ..a })
        }),
{
    lemma_slot_named(list, a.name@);
}

/// A slot is reserved only for a name that was checked, and it is the first empty one.
pub proof fn law_first_empty_slot_is_reserved(pool: ProcessPool, a: Allocation, list: Seq<SlotStatus>)
    ensures
        allocated(pool, a, Ok(list)).1 matches AllocationView::Reserve { slot, name, mac, tap } ==> {
            &&& a.name_checked
            &&& name == a.name
            &&& mac == a.mac
            &&& tap == tap_name(slot)
            &&& exists|i: int|
                0 <= i < list.len() && (#[trigger] list[i]).slot == slot && list[i].state
                    == SlotState::Empty && (forall|j: int|
                    0 <= j < i ==> (#[trigger] list[j]).state != SlotState::Empty)
        },
{
    lemma_first_empty(list);
}

/// The pool reports itself exhausted only when no slot is empty and it may not grow.
pub proof fn law_exhausted_only_when_full(pool: ProcessPool, a: Allocation, list: Seq<SlotStatus>)
    requires
        a.name_checked,
    ensures
        allocated(pool, a, Ok(list)).1 == AllocationView::Failed(PoolErrorView::NoAvailableSlot)
            <==> {
            &&& pool.slots >= pool.max_pool_size
            &&& forall|i: int|
                0 <= i < list.len() ==> (#[trigger] list[i]).state != SlotState::Empty
        },
{
    lemma_first_empty(list);
}

/// An allocation keeps the pool within its limits, and lets it grow by one slot at a time.
pub proof fn law_allocation_stays_within_limits(
    pool: ProcessPool,
    a: Allocation,
    listing: Result<Seq<SlotStatus>, PoolErrorView>,
)
    requires
        pool.within_limits(),
    ensures
        allocated(pool, a, listing).0.within_limits(),
        allocated(pool, a, listing).0.slots == pool.slots + (if allocated(pool, a, listing).1 is Grow
        {
            1int
        } else {
            0
        }),
{
}

/// How many listings an allocation can still ask for.
pub open spec fn allocation_rank(pool: ProcessPool, a: Allocation) -> int {
    (if a.name_checked {
        0int
    } else {
        1
    }) + pool.max_pool_size - pool.slots
}

/// An allocation comes to an end: each time it asks for another listing it comes closer to it.
pub proof fn law_allocation_ends(
    pool: ProcessPool,
    a: Allocation,
    listing: Result<Seq<SlotStatus>, PoolErrorView>,
)
    requires
        pool.within_limits(),
    ensures
        ({
            let (after, step) = allocated(pool, a, listing);
            let rank = allocation_rank(pool, a);
            &&& rank >= 0
            &&& step matches AllocationView::List(b) ==> 0 <= allocation_rank(after, b) < rank
        }),
        ({
            let (after, step) = allocated(pool, a, listing);
            step matches AllocationView::Grow { allocation, .. } ==> 0 <= allocation_rank(
                after,
                allocation,
            ) < allocation_rank(pool, a)
        }),
{
}

/// The slot that is reserved exists, given that each slot reports its own number.
pub proof fn law_reserved_slot_exists(
    pool: ProcessPool,
    a: Allocation,
    list: Seq<SlotStatus>,
    command: SlotCommand,
)
    requires
        list.len() == pool.slots,
        forall|i: int| 0 <= i < list.len() ==> (#[trigger] list[i]).slot == i,
    ensures
        allocated(pool, a, Ok(list)).1 matches AllocationView::Reserve { slot, .. } ==> addressed(
            pool.slots,
            slot,
            command,
        ) is Ok,
{
    lemma_first_empty(list);
}

/// The pool shrinks only while it has more slots than its minimum, by one slot, and so stays within
/// its limits.
pub proof fn law_shrinking_stays_within_limits(pool: ProcessPool, now: u128, last: SlotStatus)
    requires
        pool.within_limits(),
        may_shrink(pool, now),
    ensures
        shrunk(pool, last).within_limits(),
        shrunk(pool, last).slots >= pool.slots - 1,
        shrunk(pool, last).slots < pool.slots <==> last.state == SlotState::Empty,
{
}

/// After the pool has shrunk it does not shrink again before the cooldown is over.
pub proof fn law_cooldown_is_kept(pool: ProcessPool, shrank_at: u128, now: u128)
    requires
        elapsed(shrank_at, now) < pool.scale_down_cooldown,
    ensures
        !may_shrink(cooling(pool, shrank_at), now),
{
}

/// No two slots bear the same name.
pub open spec fn names_unique(list: Seq<SlotStatus>) -> bool {
    forall|i: int, j: int|
        0 <= i < j < list.len() && (#[trigger] list[i]).name is Some && (
        #[trigger] list[j]).name is Some ==> list[i].name->0@ != list[j].name->0@
}

/// Reserving a slot for a name that no slot bears keeps names unique.
pub proof fn law_reservation_keeps_names_unique(
    list: Seq<SlotStatus>,
    at: int,
    name: String,
    mac: String,
    tap: String,
)
    requires
        0 <= at < list.len(),
        names_unique(list),
        !name_taken(list, name@),
    ensures
        names_unique(list.update(at, reserved(list[at], name, mac, tap))),
{
}

/// Whatever else happens to a worker keeps names unique: only a finished reservation gives a slot
/// another name.
pub proof fn law_events_keep_names_unique<C>(
    list: Seq<SlotStatus>,
    at: int,
    worker: Supervisor<C>,
    event: SupervisorEvent<C>,
)
    requires
        0 <= at < list.len(),
        names_unique(list),
        worker.wf(),
        worker.expects(event),
        worker.runtime.status == list[at],
        !(event is TapPrepared),
    ensures
        names_unique(list.update(at, supervised(worker, event).0.runtime.status)),
{
    let after = supervised(worker, event).0.runtime.status;
    assert(after.name is None || after.name == list[at].name);
}

} // verus!
