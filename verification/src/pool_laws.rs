//! What finding, listing, allocating and shrinking come to, whatever the slots hold.
use vstd::prelude::*;
use vstd::utf8::encode_utf8;

use crate::numbers::decimal;
use crate::pool::{
    count_in, first_empty, numbered, outcome, pool_error_message, pool_summary, running, runtime_named,
    runtime_of, runtime_or_error, slot_named, state_name, transition_message, vm_message, PoolError,
    PoolErrorView, SlotState, SlotStatus, VmRuntime, VmState,
};
use crate::process_pool::{
    addressed, allocated, byte_lists, cooling, launch, launch_views, listing_after, listing_next,
    listing_outcome, may_shrink, settled, shrunk, socket_path, tap_name, Allocation,
    AllocationStep, AllocationView, LaunchView, ListingStep, ListingView, ProcessPool, SlotLaunch,
};
use crate::slot_supervisor::SlotCommand;

verus! {

/// The slot that is found for a name bears that name, and no earlier slot does; where none is found,
/// no slot bears it.
pub proof fn law_found_slot_bears_the_name(list: Seq<SlotStatus>, name: Seq<char>)
    ensures
        match slot_named(list, name) {
            Some(s) => s.name is Some && s.name->0@ == name && exists|i: int|
                0 <= i < list.len() && #[trigger] list[i] == s && forall|j: int|
                    0 <= j < i ==> !((#[trigger] list[j]).name is Some && list[j].name->0@ == name),
            None => forall|j: int|
                0 <= j < list.len() ==> !((#[trigger] list[j]).name is Some && list[j].name->0@
                    == name),
        },
    decreases list.len(),
{
    if list.len() > 0 {
        let rest = list.skip(1);
        if list[0].name is Some && list[0].name->0@ == name {
            assert(list[0] == slot_named(list, name)->0);
        } else {
            law_found_slot_bears_the_name(rest, name);
            match slot_named(rest, name) {
                Some(s) => {
                    let i = choose|i: int|
                        0 <= i < rest.len() && #[trigger] rest[i] == s && forall|j: int|
                            0 <= j < i ==> !((#[trigger] rest[j]).name is Some && rest[j].name->0@
                                == name);
                    assert(list[i + 1] == s);
                    assert forall|j: int| 0 <= j < i + 1 implies !((#[trigger] list[j]).name is Some
                        && list[j].name->0@ == name) by {
                        if j > 0 {
                            assert(rest[j - 1] == list[j]);
                        }
                    }
                },
                None => {
                    assert forall|j: int| 0 <= j < list.len() implies !((
                    #[trigger] list[j]).name is Some && list[j].name->0@ == name) by {
                        if j > 0 {
                            assert(rest[j - 1] == list[j]);
                        }
                    }
                },
            }
        }
    }
}

/// The machine that is found for a name has that name, and no earlier one does; where none is found,
/// no machine has it.
pub proof fn law_found_machine_has_the_name(list: Seq<VmRuntime>, name: Seq<char>)
    ensures
        match runtime_named(list, name) {
            Some(vm) => vm.name@ == name && exists|i: int|
                0 <= i < list.len() && #[trigger] list[i] == vm && forall|j: int|
                    0 <= j < i ==> (#[trigger] list[j]).name@ != name,
            None => forall|j: int| 0 <= j < list.len() ==> (#[trigger] list[j]).name@ != name,
        },
    decreases list.len(),
{
    if list.len() > 0 {
        let rest = list.skip(1);
        if list[0].name@ == name {
            assert(list[0] == runtime_named(list, name)->0);
        } else {
            law_found_machine_has_the_name(rest, name);
            match runtime_named(rest, name) {
                Some(vm) => {
                    let i = choose|i: int|
                        0 <= i < rest.len() && #[trigger] rest[i] == vm && forall|j: int|
                            0 <= j < i ==> (#[trigger] rest[j]).name@ != name;
                    assert(list[i + 1] == vm);
                    assert forall|j: int| 0 <= j < i + 1 implies (#[trigger] list[j]).name@
                        != name by {
                        if j > 0 {
                            assert(rest[j - 1] == list[j]);
                        }
                    }
                },
                None => {
                    assert forall|j: int| 0 <= j < list.len() implies (#[trigger] list[j]).name@
                        != name by {
                        if j > 0 {
                            assert(rest[j - 1] == list[j]);
                        }
                    }
                },
            }
        }
    }
}

/// The empty slot that is found is empty, and no earlier slot is; where none is found, none is.
pub proof fn law_found_slot_is_the_first_empty_one(list: Seq<SlotStatus>)
    ensures
        match first_empty(list) {
            Some(s) => s.state == SlotState::Empty && exists|i: int|
                0 <= i < list.len() && #[trigger] list[i] == s && forall|j: int|
                    0 <= j < i ==> (#[trigger] list[j]).state != SlotState::Empty,
            None => forall|j: int|
                0 <= j < list.len() ==> (#[trigger] list[j]).state != SlotState::Empty,
        },
    decreases list.len(),
{
    if list.len() > 0 {
        let rest = list.skip(1);
        if list[0].state == SlotState::Empty {
            assert(list[0] == first_empty(list)->0);
        } else {
            law_found_slot_is_the_first_empty_one(rest);
            match first_empty(rest) {
                Some(s) => {
                    let i = choose|i: int|
                        0 <= i < rest.len() && #[trigger] rest[i] == s && forall|j: int|
                            0 <= j < i ==> (#[trigger] rest[j]).state != SlotState::Empty;
                    assert(list[i + 1] == s);
                    assert forall|j: int| 0 <= j < i + 1 implies (#[trigger] list[j]).state
                        != SlotState::Empty by {
                        if j > 0 {
                            assert(rest[j - 1] == list[j]);
                        }
                    }
                },
                None => {
                    assert forall|j: int| 0 <= j < list.len() implies (#[trigger] list[j]).state
                        != SlotState::Empty by {
                        if j > 0 {
                            assert(rest[j - 1] == list[j]);
                        }
                    }
                },
            }
        }
    }
}

/// A slot is listed as a running machine exactly when it is occupied and all is known of its machine,
/// and then with what is known.
pub proof fn law_listed_machine_is_the_one_in_the_slot(s: SlotStatus)
    ensures
        runtime_of(s) is Some <==> s.state == SlotState::Occupied && s.name is Some && s.mac is Some
            && s.tap is Some && s.pid is Some && s.started_at is Some,
        runtime_of(s) matches Some(vm) ==> Some(vm.name) == s.name && Some(vm.mac) == s.mac && Some(
            vm.tap,
        ) == s.tap && Some(vm.pid) == s.pid && Some(vm.started_at) == s.started_at && vm.state
            == VmState::Running,
{
}

/// The first thing that is not known of a machine is what keeps it from being shown.
pub proof fn law_unknown_details_are_named(s: SlotStatus)
    ensures
        s.state != SlotState::Occupied ==> runtime_or_error(s) == Err::<VmRuntime, PoolErrorView>(
            PoolErrorView::InvalidTransition {
                slot: s.slot,
                from: s.state,
                action: "convert_runtime"@,
            },
        ),
        s.state == SlotState::Occupied && s.name is None ==> runtime_or_error(s) == Err::<
            VmRuntime,
            PoolErrorView,
        >(PoolErrorView::Backend("missing VM name"@)),
        s.state == SlotState::Occupied && s.name is Some && s.mac is None ==> runtime_or_error(s)
            == Err::<VmRuntime, PoolErrorView>(PoolErrorView::Backend("missing MAC address"@)),
        s.state == SlotState::Occupied && s.name is Some && s.mac is Some && s.tap is None
            ==> runtime_or_error(s) == Err::<VmRuntime, PoolErrorView>(
            PoolErrorView::Backend("missing tap device"@),
        ),
        s.state == SlotState::Occupied && s.name is Some && s.mac is Some && s.tap is Some
            && s.pid is None ==> runtime_or_error(s) == Err::<VmRuntime, PoolErrorView>(
            PoolErrorView::Backend("missing pid"@),
        ),
        s.state == SlotState::Occupied && s.name is Some && s.mac is Some && s.tap is Some
            && s.pid is Some && s.started_at is None ==> runtime_or_error(s) == Err::<
            VmRuntime,
            PoolErrorView,
        >(PoolErrorView::Backend("missing started_at"@)),
        s.state == SlotState::Occupied && s.name is Some && s.mac is Some && s.tap is Some
            && s.pid is Some && s.started_at is Some ==> runtime_or_error(s) == Ok::<
            VmRuntime,
            PoolErrorView,
        >(
            VmRuntime {
                name: s.name->0,
                mac: s.mac->0,
                tap: s.tap->0,
                pid: s.pid->0,
                state: VmState::Running,
                started_at: s.started_at->0,
            },
        ),
{
}

/// The list of running machines has one for each slot that holds one, in the order of the slots.
pub proof fn law_running_machines_are_listed_in_order(
    a: Seq<SlotStatus>,
    s: SlotStatus,
    b: Seq<SlotStatus>,
)
    ensures
        running(Seq::empty()) == Seq::<VmRuntime>::empty(),
        running(seq![s]) == (match runtime_of(s) {
            Some(vm) => seq![vm],
            None => Seq::<VmRuntime>::empty(),
        }),
        running(a + b) == running(a) + running(b),
    decreases b.len(),
{
    assert(seq![s].drop_last() =~= Seq::empty());
    assert(running(Seq::empty()) =~= Seq::<VmRuntime>::empty());
    assert(running(seq![s]) =~= (match runtime_of(s) {
        Some(vm) => seq![vm],
        None => Seq::<VmRuntime>::empty(),
    }));
    if b.len() == 0 {
        assert(a + b =~= a);
        assert(running(a) + running(b) =~= running(a));
    } else {
        law_running_machines_are_listed_in_order(a, s, b.drop_last());
        assert((a + b).drop_last() =~= a + b.drop_last());
        assert((a + b).last() == b.last());
        assert(running(a + b) =~= running(a) + running(b));
    }
}

/// The count of a state is the number of slots in it.
pub proof fn law_count_is_the_number_of_slots(list: Seq<SlotStatus>, state: SlotState)
    ensures
        count_in(list, state) == list.filter(|s: SlotStatus| s.state == state).len(),
    decreases list.len(),
{
    let in_state = |s: SlotStatus| s.state == state;
    reveal(Seq::filter);
    if list.len() > 0 {
        law_count_is_the_number_of_slots(list.drop_last(), state);
    }
}

/// How the errors of the pool read.
pub proof fn law_pool_errors_read_well(
    slot: usize,
    from: SlotState,
    action: Seq<char>,
    name: Seq<char>,
    what: Seq<char>,
)
    ensures
        state_name(SlotState::Empty) == "Empty"@,
        state_name(SlotState::Booting) == "Booting"@,
        state_name(SlotState::Occupied) == "Occupied"@,
        state_name(SlotState::Failed) == "Failed"@,
        transition_message(slot, from, action) == "slot "@ + decimal(slot as nat)
            + " cannot perform "@ + action + " from state "@ + state_name(from),
        numbered(name, slot as nat, what) == name + decimal(slot as nat) + what,
        vm_message(name, what) == "VM '"@ + name + "'"@ + what,
        pool_error_message(PoolErrorView::InvalidTransition { slot, from, action }) == "slot "@
            + decimal(slot as nat) + " cannot perform "@ + action + " from state "@ + state_name(
            from,
        ),
        pool_error_message(PoolErrorView::SlotNotFound(slot)) == "slot "@ + decimal(slot as nat)
            + " does not exist"@,
        pool_error_message(PoolErrorView::VmNotFound(name)) == "VM '"@ + name + "'"@
            + " not found"@,
        pool_error_message(PoolErrorView::VmAlreadyRunning(name)) == "VM '"@ + name + "'"@
            + " is already running"@,
        pool_error_message(PoolErrorView::NoAvailableSlot) == "pool is exhausted"@,
        pool_error_message(PoolErrorView::ChannelClosed) == "slot worker channel is closed"@,
        pool_error_message(PoolErrorView::Backend(what)) == "backend request failed: "@ + what,
{
}

/// A summary has one entry for each slot, in order, with commas between them.
pub proof fn law_summary_shows_each_slot(a: Seq<SlotStatus>, s: SlotStatus)
    ensures
        pool_summary(Seq::empty()) == Seq::<char>::empty(),
        s.name matches Some(name) ==> pool_summary(seq![s]) == decimal(s.slot as nat) + ":"@
            + state_name(s.state) + "("@ + name@ + ")"@,
        s.name is None ==> pool_summary(seq![s]) == decimal(s.slot as nat) + ":"@ + state_name(
            s.state,
        ) + "("@ + "-"@ + ")"@,
        a.len() > 0 ==> pool_summary(a.push(s)) == pool_summary(a) + ","@ + pool_summary(seq![s]),
{
    assert(a.push(s).drop_last() =~= a);
}

/// Outcomes and errors of the pool are shown with all that they say.
pub proof fn law_pool_outcomes_are_shown_in_full<T>(
    value: T,
    error: PoolError,
    slot: usize,
    from: SlotState,
    action: &'static str,
    text: String,
    list: Vec<SlotStatus>,
)
    ensures
        outcome::<T>(Ok(value)) == Ok::<T, PoolErrorView>(value),
        outcome::<T>(Err(error)) == Err::<T, PoolErrorView>(error@),
        (PoolError::InvalidTransition { slot, from, action })@
            == (PoolErrorView::InvalidTransition { slot, from, action: action@ }),
        PoolError::SlotNotFound(slot)@ == PoolErrorView::SlotNotFound(slot),
        PoolError::VmNotFound(text)@ == PoolErrorView::VmNotFound(text@),
        PoolError::VmAlreadyRunning(text)@ == PoolErrorView::VmAlreadyRunning(text@),
        PoolError::NoAvailableSlot@ == PoolErrorView::NoAvailableSlot,
        PoolError::ChannelClosed@ == PoolErrorView::ChannelClosed,
        PoolError::Backend(text)@ == PoolErrorView::Backend(text@),
        listing_outcome(Ok(list)) == Ok::<Seq<SlotStatus>, PoolErrorView>(list@),
        listing_outcome(Err(error)) == Err::<Seq<SlotStatus>, PoolErrorView>(error@),
{
}

/// The steps of the pool are shown with all that they hold.
pub proof fn law_pool_steps_are_shown_in_full(
    slot: usize,
    so_far: Vec<SlotStatus>,
    listing: Result<Vec<SlotStatus>, PoolError>,
    allocation: Allocation,
    workers: Vec<SlotLaunch>,
    name: String,
    mac: String,
    tap: String,
    error: PoolError,
    i: int,
)
    ensures
        (ListingStep::Ask { slot, so_far })@ == (ListingView::Ask { slot, so_far: so_far@ }),
        ListingStep::Done(listing)@ == ListingView::Done(
            match listing {
                Ok(list) => Ok(list@),
                Err(e) => Err(e@),
            },
        ),
        AllocationStep::List(allocation)@ == AllocationView::List(allocation),
        (AllocationStep::Grow { allocation, workers })@ == (AllocationView::Grow {
            allocation,
            workers: launch_views(workers@),
        }),
        (AllocationStep::Reserve { slot, name, mac, tap })@ == (AllocationView::Reserve {
            slot,
            name,
            mac,
            tap: tap@,
        }),
        AllocationStep::Failed(error)@ == AllocationView::Failed(error@),
        launch_views(workers@).len() == workers@.len(),
        0 <= i < workers@.len() ==> ({
            let shown = launch_views(workers@)[i];
            let worker = workers@[i];
            &&& shown.slot == worker.slot
            &&& shown.program == worker.program@
            &&& shown.bridge == worker.bridge
            &&& shown.api_socket == worker.api_socket@
            &&& shown.args.len() == worker.args@.len()
            &&& forall|j: int|
                0 <= j < worker.args@.len() ==> #[trigger] shown.args[j] == worker.args@[j]@
        }),
{
}

/// The socket of a slot lies in the directory of the pool, under a name made of its number.
pub proof fn law_socket_lies_in_the_directory(vm_path: Seq<u8>, slot: usize)
    ensures
        vm_path.len() > 0 && vm_path[vm_path.len() - 1] != 47 ==> socket_path(vm_path, slot)
            == vm_path + seq![47u8] + encode_utf8("vmm"@ + decimal(slot as nat) + ".sock"@),
        vm_path.len() == 0 || vm_path[vm_path.len() - 1] == 47 ==> socket_path(vm_path, slot)
            == vm_path + encode_utf8("vmm"@ + decimal(slot as nat) + ".sock"@),
{
    if vm_path.len() > 0 && vm_path[vm_path.len() - 1] != 47 {
        assert(vm_path.push(47u8) =~= vm_path + seq![47u8]);
    }
}

/// A worker is started with what the pool was made with, its own number, and its own socket at the
/// end of the arguments.
pub proof fn law_workers_are_launched_for_their_slots(
    pool: ProcessPool,
    from: usize,
    to: usize,
    i: int,
)
    requires
        from <= to,
        0 <= i < to - from,
    ensures
        pool.launches(from, to).len() == to - from,
        ({
            let slot = (from + i) as usize;
            let l = pool.launches(from, to)[i];
            let socket = socket_path(pool.vm_path@, slot);
            &&& l.slot == from + i
            &&& l.program == pool.program@
            &&& l.bridge == pool.bridge
            &&& l.api_socket == socket
            &&& l.args.len() == pool.args@.len() + 2
            &&& forall|j: int|
                0 <= j < pool.args@.len() ==> #[trigger] l.args[j] == pool.args@[j]@
            &&& l.args[pool.args@.len() as int] == encode_utf8("--api-socket"@)
            &&& l.args[pool.args@.len() as int + 1] == socket
        }),
{
}

/// The same of a single worker.
pub proof fn law_worker_is_launched_with_its_socket(
    slot: usize,
    program: Seq<char>,
    args: Seq<Seq<u8>>,
    bridge: Option<String>,
    vm_path: Seq<u8>,
)
    ensures
        launch(slot, program, args, bridge, vm_path) == (LaunchView {
            slot,
            program,
            args: args + seq![encode_utf8("--api-socket"@), socket_path(vm_path, slot)],
            bridge,
            api_socket: socket_path(vm_path, slot),
        }),
{
    let socket = socket_path(vm_path, slot);
    assert(args.push(encode_utf8("--api-socket"@)).push(socket) =~= args + seq![
        encode_utf8("--api-socket"@),
        socket,
    ]);
}

/// A command goes to every slot that exists and to no other; a worker that is gone has closed its
/// channel, and any other answer is passed on.
pub proof fn law_commands_reach_existing_slots(
    slots: usize,
    slot: usize,
    command: SlotCommand,
    status: SlotStatus,
    error: PoolError,
)
    ensures
        slot < slots ==> addressed(slots, slot, command) == Ok::<SlotCommand, PoolErrorView>(
            command,
        ),
        slot >= slots ==> addressed(slots, slot, command) == Err::<SlotCommand, PoolErrorView>(
            PoolErrorView::SlotNotFound(slot),
        ),
        settled(Some(Ok(status))) == Ok::<SlotStatus, PoolErrorView>(status),
        settled(Some(Err(error))) == Err::<SlotStatus, PoolErrorView>(error@),
        settled(None) == Err::<SlotStatus, PoolErrorView>(PoolErrorView::ChannelClosed),
{
}

/// A listing asks the slot after the last one that answered, until all have; a failure ends it.
pub proof fn law_listing_asks_the_next_slot(
    slots: usize,
    so_far: Seq<SlotStatus>,
    status: SlotStatus,
    error: PoolErrorView,
)
    ensures
        so_far.len() < slots ==> listing_next(slots, so_far) == (ListingView::Ask {
            slot: so_far.len() as usize,
            so_far,
        }),
        so_far.len() >= slots ==> listing_next(slots, so_far) == ListingView::Done(Ok(so_far)),
        so_far.len() + 1 < slots ==> listing_after(slots, so_far, Ok(status)) == (
        ListingView::Ask { slot: (so_far.len() + 1) as usize, so_far: so_far.push(status) }),
        so_far.len() + 1 >= slots ==> listing_after(slots, so_far, Ok(status))
            == ListingView::Done(Ok(so_far.push(status))),
        listing_after(slots, so_far, Err(error)) == ListingView::Done(Err(error)),
{
}

/// A step that asks for another listing goes on with the same machine, whose name is then checked;
/// a slot is reserved for the machine that came in, with the tap device of that slot.
pub proof fn law_allocation_keeps_its_machine(
    pool: ProcessPool,
    a: Allocation,
    listing: Result<Seq<SlotStatus>, PoolErrorView>,
)
    ensures
        match allocated(pool, a, listing).1 {
            AllocationView::List(b) => b.name == a.name && b.mac == a.mac && b.name_checked
                && !a.name_checked,
            AllocationView::Grow { allocation: b, .. } => b.name == a.name && b.mac == a.mac
                && b.name_checked && a.name_checked,
            AllocationView::Reserve { slot, name, mac, tap } => name == a.name && mac == a.mac && tap
                == "tap"@ + decimal(slot as nat) && a.name_checked,
            AllocationView::Failed(_) => true,
        },
{
}

/// Where an allocation stands after these listings, one after the other.
pub open spec fn allocation_run(
    pool: ProcessPool,
    a: Allocation,
    listings: Seq<Result<Seq<SlotStatus>, PoolErrorView>>,
) -> AllocationView
    decreases listings.len(),
{
    if listings.len() == 0 {
        AllocationView::List(a)
    } else {
        let (after, step) = allocated(pool, a, listings[0]);
        match step {
            AllocationView::List(b) => allocation_run(after, b, listings.skip(1)),
            AllocationView::Grow { allocation: b, .. } => allocation_run(
                after,
                b,
                listings.skip(1),
            ),
            _ => step,
        }
    }
}

/// Whatever the slots report, and however often the pool grows, a slot is reserved for the name and
/// the address that were asked for, and a name is refused only if it was asked for.
pub proof fn law_slot_is_reserved_for_what_was_asked(
    pool: ProcessPool,
    a: Allocation,
    listings: Seq<Result<Seq<SlotStatus>, PoolErrorView>>,
)
    ensures
        match allocation_run(pool, a, listings) {
            AllocationView::Reserve { slot, name, mac, tap } => name == a.name && mac == a.mac && tap
                == "tap"@ + decimal(slot as nat),
            AllocationView::Failed(PoolErrorView::VmAlreadyRunning(name)) => name == a.name@
                || exists|i: int|
                0 <= i < listings.len() && #[trigger] listings[i] == Err::<
                    Seq<SlotStatus>,
                    PoolErrorView,
                >(PoolErrorView::VmAlreadyRunning(name)),
            _ => true,
        },
    decreases listings.len(),
{
    if listings.len() > 0 {
        let rest = listings.skip(1);
        law_allocation_keeps_its_machine(pool, a, listings[0]);
        let (after, step) = allocated(pool, a, listings[0]);
        match step {
            AllocationView::List(b) => {
                law_slot_is_reserved_for_what_was_asked(after, b, rest);
            },
            AllocationView::Grow { allocation: b, .. } => {
                law_slot_is_reserved_for_what_was_asked(after, b, rest);
            },
            _ => {},
        }
        if let AllocationView::Failed(PoolErrorView::VmAlreadyRunning(name)) = allocation_run(
            pool,
            a,
            listings,
        ) {
            if name != a.name@ && (step is List || step is Grow) {
                let i = choose|i: int|
                    0 <= i < rest.len() && #[trigger] rest[i] == Err::<
                        Seq<SlotStatus>,
                        PoolErrorView,
                    >(PoolErrorView::VmAlreadyRunning(name));
                assert(listings[i + 1] == rest[i]);
            }
        }
    }
}

/// What each listing brings an allocation to: the failure of the listing; for a name that is not
/// checked, its refusal where a slot bears it; and otherwise the first empty slot, or one slot more,
/// or the news that the pool is full.
pub proof fn law_allocation_goes_by_the_listing(
    pool: ProcessPool,
    a: Allocation,
    list: Seq<SlotStatus>,
    error: PoolErrorView,
    i: int,
)
    ensures
        allocated(pool, a, Err(error)) == (pool, AllocationView::Failed(error)),
        !a.name_checked && 0 <= i < list.len() && list[i].name is Some && list[i].name->0@ == a.name@
            ==> allocated(pool, a, Ok(list)) == (
            pool,
            AllocationView::Failed(PoolErrorView::VmAlreadyRunning(a.name@)),
        ),
        !a.name_checked && (forall|j: int|
            0 <= j < list.len() ==> !((#[trigger] list[j]).name is Some && list[j].name->0@
                == a.name@)) ==> allocated(pool, a, Ok(list)) == (
            pool,
            AllocationView::List(Allocation { name: a.name, mac: a.mac, name_checked: true }),
        ),
        a.name_checked && 0 <= i < list.len() && list[i].state == SlotState::Empty && (forall|j: int|
            0 <= j < i ==> (#[trigger] list[j]).state != SlotState::Empty) ==> allocated(
            pool,
            a,
            Ok(list),
        ) == (
            pool,
            AllocationView::Reserve {
                slot: list[i].slot,
                name: a.name,
                mac: a.mac,
                tap: "tap"@ + decimal(list[i].slot as nat),
            },
        ),
        a.name_checked && pool.slots >= pool.max_pool_size && (forall|j: int|
            0 <= j < list.len() ==> (#[trigger] list[j]).state != SlotState::Empty) ==> allocated(
            pool,
            a,
            Ok(list),
        ) == (pool, AllocationView::Failed(PoolErrorView::NoAvailableSlot)),
        a.name_checked && pool.slots < pool.max_pool_size && (forall|j: int|
            0 <= j < list.len() ==> (#[trigger] list[j]).state != SlotState::Empty) ==> allocated(
            pool,
            a,
            Ok(list),
        ) == (
            ProcessPool { slots: (pool.slots + 1) as usize, ..pool },
            AllocationView::Grow {
                allocation: a,
                workers: seq![
                    launch(
                        pool.slots,
                        pool.program@,
                        byte_lists(pool.args@),
                        pool.bridge,
                        pool.vm_path@,
                    ),
                ],
            },
        ),
{
    law_found_slot_bears_the_name(list, a.name@);
    law_found_slot_is_the_first_empty_one(list);
    if a.name_checked && 0 <= i < list.len() && list[i].state == SlotState::Empty && (forall|j: int|
        0 <= j < i ==> (#[trigger] list[j]).state != SlotState::Empty) {
        let s = first_empty(list)->0;
        let k = choose|k: int|
            0 <= k < list.len() && #[trigger] list[k] == s && forall|j: int|
                0 <= j < k ==> (#[trigger] list[j]).state != SlotState::Empty;
        assert(k == i) by {
            if k < i {
                assert(list[k].state != SlotState::Empty);
            }
            if i < k {
                assert(list[i].state != SlotState::Empty);
            }
        }
    }
    if a.name_checked && pool.slots < pool.max_pool_size {
        assert(pool.launches(pool.slots, (pool.slots + 1) as usize) =~= seq![
            pool.launch_of(pool.slots),
        ]);
    }
}

/// A tick offers the last slot exactly when the pool has more slots than its minimum and has never
/// shrunk, or did so at least a cooldown ago.
pub proof fn law_tick_offers_the_last_slot(pool: ProcessPool, now: u128)
    ensures
        pool.slots <= pool.min_pool_size ==> !may_shrink(pool, now),
        pool.slots > pool.min_pool_size && pool.last_scale_down_at is None ==> may_shrink(
            pool,
            now,
        ),
        pool.slots > pool.min_pool_size && pool.last_scale_down_at is Some
            && pool.last_scale_down_at->0 + pool.scale_down_cooldown <= now ==> may_shrink(
            pool,
            now,
        ),
        pool.last_scale_down_at is Some && pool.last_scale_down_at->0 <= now
            < pool.last_scale_down_at->0 + pool.scale_down_cooldown ==> !may_shrink(pool, now),
        pool.last_scale_down_at is Some && now < pool.last_scale_down_at->0
            && pool.scale_down_cooldown > 0 ==> !may_shrink(pool, now),
        pool.slots > pool.min_pool_size && pool.scale_down_cooldown == 0 ==> may_shrink(pool, now),
{
}

/// A pool shrinks by its last slot where that is empty, and by nothing else; what else it holds
/// stays, but for the time at which it last shrank.
pub proof fn law_shrinking_takes_one_empty_slot(pool: ProcessPool, last: SlotStatus, now: u128)
    requires
        pool.slots > 0,
    ensures
        last.state == SlotState::Empty ==> shrunk(pool, last) == (ProcessPool {
            slots: (pool.slots - 1) as usize,
            ..pool
        }),
        last.state != SlotState::Empty ==> shrunk(pool, last) == pool,
        cooling(pool, now) == (ProcessPool { last_scale_down_at: Some(now), ..pool }),
{
}

/// The pool after one tick at this time, where the last slot is as given.
pub open spec fn after_tick(pool: ProcessPool, now: u128, last: SlotStatus) -> ProcessPool {
    if !may_shrink(pool, now) {
        pool
    } else if last.state == SlotState::Empty {
        cooling(shrunk(pool, last), now)
    } else {
        shrunk(pool, last)
    }
}

/// The pool after a tick at each of these times, where the last slot is always empty.
pub open spec fn after_ticks(pool: ProcessPool, times: Seq<u128>, idle: SlotStatus) -> ProcessPool
    decreases times.len(),
{
    if times.len() == 0 {
        pool
    } else {
        after_tick(after_ticks(pool, times.drop_last(), idle), times.last(), idle)
    }
}

/// With idle slots and ticks a cooldown apart, the pool comes down by one slot at each tick until it
/// has exactly its minimum, and then stays there.
pub proof fn law_idle_pool_comes_down_to_its_minimum(
    pool: ProcessPool,
    times: Seq<u128>,
    idle: SlotStatus,
)
    requires
        pool.min_pool_size <= pool.slots,
        idle.state == SlotState::Empty,
        times.len() > 0 && pool.last_scale_down_at is Some ==> pool.last_scale_down_at->0
            + pool.scale_down_cooldown <= times[0],
        forall|i: int, j: int|
            0 <= i < j < times.len() ==> #[trigger] times[i] + pool.scale_down_cooldown
                <= #[trigger] times[j],
    ensures
        ({
            let after = after_ticks(pool, times, idle);
            &&& times.len() < pool.slots - pool.min_pool_size ==> after.slots == pool.slots
                - times.len()
            &&& times.len() >= pool.slots - pool.min_pool_size ==> after.slots
                == pool.min_pool_size
            &&& after.min_pool_size == pool.min_pool_size
            &&& after.scale_down_cooldown == pool.scale_down_cooldown
            &&& after.last_scale_down_at == pool.last_scale_down_at || (exists|i: int|
                0 <= i < times.len() && after.last_scale_down_at == Some(#[trigger] times[i]))
        }),
    decreases times.len(),
{
    if times.len() > 0 {
        let earlier = times.drop_last();
        assert forall|i: int, j: int| 0 <= i < j < earlier.len() implies #[trigger] earlier[i]
            + pool.scale_down_cooldown <= #[trigger] earlier[j] by {
            assert(earlier[i] == times[i] && earlier[j] == times[j]);
        }
        law_idle_pool_comes_down_to_its_minimum(pool, earlier, idle);
        let before = after_ticks(pool, earlier, idle);
        let now = times.last();
        assert(now == times[times.len() - 1]);
        if before.last_scale_down_at != pool.last_scale_down_at {
            let i = choose|i: int|
                0 <= i < earlier.len() && before.last_scale_down_at == Some(#[trigger] earlier[i]);
            assert(times[i] == earlier[i]);
            assert(times[i] + pool.scale_down_cooldown <= times[times.len() - 1]);
        } else if times.len() > 1 && pool.last_scale_down_at is Some {
            assert(times[0] + pool.scale_down_cooldown <= times[times.len() - 1]);
        }
        law_tick_offers_the_last_slot(before, now);
    }
}

/// The limits of a pool are its smallest and its largest size.
pub proof fn law_limits_are_the_sizes(pool: ProcessPool)
    ensures
        pool.within_limits() <==> pool.min_pool_size <= pool.slots && pool.slots
            <= pool.max_pool_size,
{
}

/// The tap device of a slot is named after its number.
pub proof fn law_tap_device_is_named_after_its_slot(slot: usize)
    ensures
        tap_name(slot) == "tap"@ + decimal(slot as nat),
{
}

} // verus!
