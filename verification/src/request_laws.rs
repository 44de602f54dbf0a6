//! Which requests are accepted, how they are passed on, and how they are answered.
use vstd::prelude::*;

use crate::api::{missing_error, plain_action, plain_question, shown};
use crate::ch_client::{
    header_text, is_unix_http_request, pair_texts, request_headers, request_uri, visible,
    HttpMethod, HttpRequest,
};
use crate::error::{
    api_error_of, error_field, error_text, http_status, ApiErrorView,
};
use crate::json::{is_written, json_opt, json_value, json_values, JsonView};
use crate::numbers::decimal;
use crate::pool::{
    running, runtime_named, slot_named, state_name, PoolErrorView, ProxyResponse, SlotState,
    SlotStatus, VmRuntime,
};
use crate::process_pool::{bears, launch_environment, name_taken, names_unique, LaunchView};
use crate::paths::parent_path;
use crate::service::{Passthrough, ProxyAction, ProxyPhase, ServiceAction, ServiceActionView};
use crate::text::{
    after_last, ascii_lower, blank, lossy_text, lower_char, trimmed, white_space,
};
use crate::text_laws::{law_tail_follows_the_last, law_trimming_takes_white_space_at_the_ends};
use crate::vm_payload::{
    backend_error_message, backend_message, disk_json, extension_of, holds_text, image_type,
    json_nat, last_component, memory_bytes, path_extension, payload_json, restore_request,
    snapshot_request, vm_request,
};
use crate::vm_validation::{
    absolute, acceptable, config_fault, fault, first_relative, given_relative, BootConfig,
    MAX_MEMORY_MB,
};

verus! {

/// A path is absolute where its first character is a slash.
pub proof fn law_absolute_paths_begin_with_a_slash(path: Seq<char>, given: String)
    ensures
        absolute(path) <==> path.len() > 0 && path[0] == '/',
        given_relative(Some(given)) <==> !(given@.len() > 0 && given@[0] == '/'),
        !given_relative(None),
{
}

/// The path that is found is the first that does not begin with a slash.
pub proof fn law_found_path_is_the_first_relative_one(paths: Seq<Seq<char>>) -> (at: int)
    ensures
        match first_relative(paths) {
            Some(path) => {
                &&& 0 <= at < paths.len()
                &&& path == paths[at]
                &&& !(paths[at].len() > 0 && paths[at][0] == '/')
                &&& forall|i: int|
                    0 <= i < at ==> (#[trigger] paths[i]).len() > 0 && paths[i][0] == '/'
            },
            None => forall|i: int|
                0 <= i < paths.len() ==> (#[trigger] paths[i]).len() > 0 && paths[i][0] == '/',
        },
    decreases paths.len(),
{
    if paths.len() == 0 || !absolute(paths[0]) {
        0
    } else {
        let rest = paths.skip(1);
        let found = law_found_path_is_the_first_relative_one(rest);
        let at = found + 1;
        if first_relative(rest) is Some {
            assert(rest[found] == paths[at]);
            assert forall|i: int| 0 <= i < at implies (#[trigger] paths[i]).len() > 0 && paths[i][0]
                == '/' by {
                if i > 0 {
                    assert(rest[i - 1] == paths[i]);
                }
            }
        } else {
            assert forall|i: int| 0 <= i < paths.len() implies (#[trigger] paths[i]).len() > 0
                && paths[i][0] == '/' by {
                if i > 0 {
                    assert(rest[i - 1] == paths[i]);
                }
            }
        }
        at
    }
}

/// The largest memory is the one whose size in bytes still fits in 64 bits.
pub proof fn law_memory_has_to_fit_in_64_bits(mb: u64)
    ensures
        mb <= MAX_MEMORY_MB <==> mb * 1_048_576 <= u64::MAX,
{
}

/// A request is accepted exactly when it has a name, processors and memory that fits, asks for one of
/// the two ways to boot, says what to boot or which snapshot to restore, and gives no relative path.
pub proof fn law_accepted_requests_meet_every_rule(c: BootConfig)
    ensures
        config_fault(c) is None <==> {
            let mode = ascii_lower(c.boot_mode@);
            &&& exists|i: int| 0 <= i < c.name@.len() && !white_space(#[trigger] c.name@[i])
            &&& c.cpus > 0
            &&& c.memory_mb > 0
            &&& c.memory_mb * 1_048_576 <= u64::MAX
            &&& mode == "linux"@ || mode == "uefi"@
            &&& c.snapshot_path is Some || (mode == "linux"@ && c.kernel_path is Some) || (mode
                == "uefi"@ && c.firmware_path is Some)
            &&& forall|i: int|
                0 <= i < c.disks@.len() ==> (#[trigger] c.disks@[i])@.len() > 0 && c.disks@[i]@[0]
                    == '/'
            &&& c.kernel_path is Some ==> c.kernel_path->0@.len() > 0 && c.kernel_path->0@[0] == '/'
            &&& c.initrd_path is Some ==> c.initrd_path->0@.len() > 0 && c.initrd_path->0@[0] == '/'
            &&& c.firmware_path is Some ==> c.firmware_path->0@.len() > 0 && c.firmware_path->0@[0]
                == '/'
            &&& c.snapshot_path is Some ==> c.snapshot_path->0@.len() > 0 && c.snapshot_path->0@[0]
                == '/'
        },
        acceptable(c) <==> config_fault(c) is None,
{
    crate::vm_validation::law_accepted_iff_acceptable(c);
    law_memory_has_to_fit_in_64_bits(c.memory_mb);
    reveal_strlit("linux");
    reveal_strlit("uefi");
    assert("linux"@.len() == 5 && "uefi"@.len() == 4);
    assert(blank(c.name@) <==> !(exists|i: int|
        0 <= i < c.name@.len() && !white_space(#[trigger] c.name@[i])));
    assert forall|i: int| 0 <= i < c.disks@.len() implies absolute(#[trigger] c.disks@[i]@) == (
    c.disks@[i]@.len() > 0 && c.disks@[i]@[0] == '/') by {}
}

/// A request without a name, processors or memory is rejected for the first of these that it lacks,
/// whatever else it says.
pub proof fn law_missing_basics_are_named(c: BootConfig)
    ensures
        trimmed(c.name@).len() == 0 ==> config_fault(c) == Some(
            ApiErrorView::Validation { field: Some("name"@), error: "name is required"@ },
        ),
        trimmed(c.name@).len() > 0 && c.cpus == 0 ==> config_fault(c) == Some(
            ApiErrorView::Validation {
                field: Some("cpus"@),
                error: "cpus must be greater than zero"@,
            },
        ),
        trimmed(c.name@).len() > 0 && c.cpus > 0 && c.memory_mb == 0 ==> config_fault(c) == Some(
            ApiErrorView::Validation {
                field: Some("memoryMb"@),
                error: "memoryMb must be greater than zero"@,
            },
        ),
{
    crate::text::lemma_blank_is_trimmed_empty(c.name@);
}

/// A request with these basics is rejected for its way to boot where that is blank or none of the
/// two, and then for memory that does not fit.
pub proof fn law_wrong_way_to_boot_is_named(c: BootConfig)
    requires
        trimmed(c.name@).len() > 0,
        c.cpus > 0,
        c.memory_mb > 0,
    ensures
        ({
            let mode = ascii_lower(c.boot_mode@);
            let known = mode == "linux"@ || mode == "uefi"@;
            &&& trimmed(c.boot_mode@).len() == 0 ==> config_fault(c) == Some(
                ApiErrorView::Validation {
                    field: Some("bootMode"@),
                    error: "bootMode is required"@,
                },
            )
            &&& trimmed(c.boot_mode@).len() > 0 && !known ==> config_fault(c) == Some(
                ApiErrorView::Validation {
                    field: Some("bootMode"@),
                    error: "bootMode must be one of: linux, uefi"@,
                },
            )
            &&& known && c.memory_mb * 1_048_576 > u64::MAX ==> config_fault(c) == Some(
                ApiErrorView::Validation {
                    field: Some("memoryMb"@),
                    error: "memoryMb is too large"@,
                },
            )
        }),
{
    crate::text::lemma_blank_is_trimmed_empty(c.name@);
    crate::text::lemma_blank_is_trimmed_empty(c.boot_mode@);
    law_memory_has_to_fit_in_64_bits(c.memory_mb);
    lemma_known_mode_is_not_blank(c.boot_mode@);
}

proof fn lemma_known_mode_is_not_blank(mode: Seq<char>)
    ensures
        ascii_lower(mode) == "linux"@ || ascii_lower(mode) == "uefi"@ ==> !blank(mode),
{
    reveal_strlit("linux");
    reveal_strlit("uefi");
    if ascii_lower(mode) == "linux"@ || ascii_lower(mode) == "uefi"@ {
        assert(ascii_lower(mode).len() == mode.len());
        assert(ascii_lower(mode)[0] == lower_char(mode[0]));
        assert(!white_space(mode[0]));
    }
}

/// A request that is right so far is rejected for what it has nothing to boot from, and then for the
/// first relative path, disks before the kernel, the initial ramdisk, the firmware and the snapshot.
pub proof fn law_missing_and_relative_paths_are_named(c: BootConfig, at: int)
    requires
        trimmed(c.name@).len() > 0,
        c.cpus > 0,
        c.memory_mb > 0,
        c.memory_mb * 1_048_576 <= u64::MAX,
        ascii_lower(c.boot_mode@) == "linux"@ || ascii_lower(c.boot_mode@) == "uefi"@,
    ensures
        ({
            let linux = ascii_lower(c.boot_mode@) == "linux"@;
            let bootable = c.snapshot_path is Some || (if linux {
                c.kernel_path is Some
            } else {
                c.firmware_path is Some
            });
            let disks = forall|i: int|
                0 <= i < c.disks@.len() ==> (#[trigger] c.disks@[i])@.len() > 0 && c.disks@[i]@[0]
                    == '/';
            let kernel = c.kernel_path is Some ==> c.kernel_path->0@.len() > 0
                && c.kernel_path->0@[0] == '/';
            let initrd = c.initrd_path is Some ==> c.initrd_path->0@.len() > 0
                && c.initrd_path->0@[0] == '/';
            let firmware = c.firmware_path is Some ==> c.firmware_path->0@.len() > 0
                && c.firmware_path->0@[0] == '/';
            let snapshot = c.snapshot_path is Some ==> c.snapshot_path->0@.len() > 0
                && c.snapshot_path->0@[0] == '/';
            &&& !bootable && linux ==> config_fault(c) == Some(
                ApiErrorView::Validation {
                    field: Some("kernelPath"@),
                    error: "kernelPath is required when bootMode=linux"@,
                },
            )
            &&& !bootable && !linux ==> config_fault(c) == Some(
                ApiErrorView::Validation {
                    field: Some("firmwarePath"@),
                    error: "firmwarePath is required when bootMode=uefi"@,
                },
            )
            &&& bootable && 0 <= at < c.disks@.len() && !(c.disks@[at]@.len() > 0
                && c.disks@[at]@[0] == '/') && (forall|i: int|
                0 <= i < at ==> (#[trigger] c.disks@[i])@.len() > 0 && c.disks@[i]@[0] == '/')
                ==> config_fault(c) == Some(
                ApiErrorView::Validation {
                    field: Some("disks"@),
                    error: "disk path '"@ + c.disks@[at]@ + "' must be absolute"@,
                },
            )
            &&& bootable && disks && !kernel ==> config_fault(c) == Some(
                ApiErrorView::Validation {
                    field: Some("kernelPath"@),
                    error: "kernelPath"@ + " must be absolute"@,
                },
            )
            &&& bootable && disks && kernel && !initrd ==> config_fault(c) == Some(
                ApiErrorView::Validation {
                    field: Some("initrdPath"@),
                    error: "initrdPath"@ + " must be absolute"@,
                },
            )
            &&& bootable && disks && kernel && initrd && !firmware ==> config_fault(c) == Some(
                ApiErrorView::Validation {
                    field: Some("firmwarePath"@),
                    error: "firmwarePath"@ + " must be absolute"@,
                },
            )
            &&& bootable && disks && kernel && initrd && firmware && !snapshot ==> config_fault(c)
                == Some(
                ApiErrorView::Validation {
                    field: Some("snapshotPath"@),
                    error: "snapshotPath"@ + " must be absolute"@,
                },
            )
        }),
{
    crate::text::lemma_blank_is_trimmed_empty(c.name@);
    law_memory_has_to_fit_in_64_bits(c.memory_mb);
    lemma_known_mode_is_not_blank(c.boot_mode@);
    reveal_strlit("linux");
    reveal_strlit("uefi");
    assert("linux"@.len() == 5 && "uefi"@.len() == 4);
    let all = crate::text::texts(c.disks@);
    assert(all.len() == c.disks@.len());
    assert forall|i: int| 0 <= i < all.len() implies #[trigger] all[i] == c.disks@[i]@ by {}
    let k = law_found_path_is_the_first_relative_one(all);
    if first_relative(all) is Some {
        assert(all[k] == c.disks@[k]@);
        if 0 <= at < c.disks@.len() && !absolute(c.disks@[at]@) && (forall|i: int|
            0 <= i < at ==> (#[trigger] c.disks@[i])@.len() > 0 && c.disks@[i]@[0] == '/') {
            assert(k == at) by {
                if k < at {
                    assert(c.disks@[k]@.len() > 0 && c.disks@[k]@[0] == '/');
                }
                if at < k {
                    assert(all[at] == c.disks@[at]@);
                }
            }
        }
    } else {
        assert forall|i: int| 0 <= i < c.disks@.len() implies (#[trigger] c.disks@[i])@.len() > 0
            && c.disks@[i]@[0] == '/' by {
            assert(all[i] == c.disks@[i]@);
        }
    }
}

/// A rejection names its field.
pub proof fn law_rejection_names_its_field(field: Seq<char>, error: Seq<char>)
    ensures
        fault(field, error) == Some(ApiErrorView::Validation { field: Some(field), error }),
{
}

/// Each kind of error has its own status, is answered with its own text, and only a rejected field is
/// named.
pub proof fn law_errors_have_their_own_status(field: Option<Seq<char>>, error: Seq<char>)
    ensures
        http_status(ApiErrorView::Validation { field, error }) == 400,
        http_status(ApiErrorView::NotFound(error)) == 404,
        http_status(ApiErrorView::Conflict(error)) == 409,
        http_status(ApiErrorView::PoolExhausted(error)) == 503,
        http_status(ApiErrorView::Backend(error)) == 500,
        error_text(ApiErrorView::Validation { field, error }) == error,
        error_text(ApiErrorView::NotFound(error)) == error,
        error_text(ApiErrorView::Conflict(error)) == error,
        error_text(ApiErrorView::PoolExhausted(error)) == error,
        error_text(ApiErrorView::Backend(error)) == error,
        error_field(ApiErrorView::Validation { field, error }) == field,
        error_field(ApiErrorView::NotFound(error)) is None,
        error_field(ApiErrorView::Conflict(error)) is None,
        error_field(ApiErrorView::PoolExhausted(error)) is None,
        error_field(ApiErrorView::Backend(error)) is None,
{
}

/// What a client is told of a failure of the pool.
pub proof fn law_pool_failures_are_told_to_clients(
    slot: usize,
    from: SlotState,
    text: Seq<char>,
)
    ensures
        api_error_of(PoolErrorView::SlotNotFound(slot)) == ApiErrorView::NotFound(
            "slot "@ + decimal(slot as nat) + " does not exist"@,
        ),
        api_error_of(PoolErrorView::VmNotFound(text)) == ApiErrorView::NotFound(
            "VM '"@ + text + "'"@ + " not found"@,
        ),
        api_error_of(PoolErrorView::VmAlreadyRunning(text)) == ApiErrorView::Conflict(
            "VM '"@ + text + "'"@ + " is already running"@,
        ),
        api_error_of(PoolErrorView::NoAvailableSlot) == ApiErrorView::PoolExhausted(
            "pool exhausted"@,
        ),
        api_error_of(PoolErrorView::InvalidTransition { slot, from, action: text })
            == ApiErrorView::Conflict(
            "slot "@ + decimal(slot as nat) + " cannot perform "@ + text + " from state "@
                + state_name(from),
        ),
        api_error_of(PoolErrorView::ChannelClosed) == ApiErrorView::Backend(
            "slot worker channel is closed"@,
        ),
        api_error_of(PoolErrorView::Backend(text)) == ApiErrorView::Backend(text),
{
}

/// A machine that is not running cannot be shown: because it is in a slot and does not run, because
/// there is none, or because of what went wrong.
pub proof fn law_machines_that_do_not_run_are_explained(
    name: Seq<char>,
    status: SlotStatus,
    error: PoolErrorView,
)
    ensures
        missing_error(name, Ok(Some(status))) == ApiErrorView::Conflict(
            "VM '"@ + name + "'"@ + " is not running"@,
        ),
        missing_error(name, Ok(None)) == ApiErrorView::NotFound(
            "VM '"@ + name + "'"@ + " not found"@,
        ),
        missing_error(name, Err(error)) == api_error_of(error),
{
}

/// What is shown under a name is the running machine of that name, or why there is none.
pub proof fn law_shown_machine_is_the_running_one(list: Seq<SlotStatus>, name: Seq<char>)
    ensures
        runtime_named(running(list), name) matches Some(vm) ==> shown(list, name) == Ok::<
            VmRuntime,
            ApiErrorView,
        >(vm),
        runtime_named(running(list), name) is None && slot_named(list, name) is Some ==> shown(
            list,
            name,
        ) == Err::<VmRuntime, ApiErrorView>(
            ApiErrorView::Conflict("VM '"@ + name + "'"@ + " is not running"@),
        ),
        runtime_named(running(list), name) is None && slot_named(list, name) is None ==> shown(
            list,
            name,
        ) == Err::<VmRuntime, ApiErrorView>(
            ApiErrorView::NotFound("VM '"@ + name + "'"@ + " not found"@),
        ),
{
}

/// A name is taken where a slot holds it, and names are unique where no two slots hold the same.
pub proof fn law_names_are_held_by_slots(list: Seq<SlotStatus>, s: SlotStatus, name: Seq<char>)
    ensures
        bears(s, name) <==> s.name is Some && s.name->0@ == name,
        name_taken(list, name) <==> (exists|i: int|
            0 <= i < list.len() && (#[trigger] list[i]).name is Some && list[i].name->0@ == name),
        names_unique(list) <==> (forall|i: int, j: int|
            0 <= i < list.len() && 0 <= j < list.len() && i != j && (
            #[trigger] list[i]).name is Some && (#[trigger] list[j]).name is Some
                ==> list[i].name->0@ != list[j].name->0@),
{
    if exists|i: int|
        0 <= i < list.len() && (#[trigger] list[i]).name is Some && list[i].name->0@ == name {
        let i = choose|i: int|
            0 <= i < list.len() && (#[trigger] list[i]).name is Some && list[i].name->0@ == name;
        assert(bears(list[i], name));
    }
}

/// An action or a question that has begun looks for the slot of its machine, and holds its name and
/// its path.
pub proof fn law_begun_actions_look_for_their_machine(
    action: (ProxyAction, ServiceAction<()>),
    question: (Passthrough, ServiceAction<ProxyResponse>),
    name: String,
    path: Seq<char>,
)
    ensures
        plain_action(action, name, path) <==> {
            &&& action.0.name == name
            &&& action.0.path@ == path
            &&& json_value(action.0.body) == JsonView::Object(Map::empty())
            &&& action.0.phase == ProxyPhase::Finding
            &&& action.1@ == (ServiceActionView::<()>::FindSlot { name: name@ })
        },
        plain_question(question, name, path) <==> {
            &&& question.0.name == name
            &&& question.0.path@ == path
            &&& question.0.phase == ProxyPhase::Finding
            &&& question.1@ == (ServiceActionView::<ProxyResponse>::FindSlot { name: name@ })
        },
{
}

/// The environment of a hypervisor has the number of its slot and the directory of its socket.
pub proof fn law_environment_tells_slot_and_directory(l: LaunchView)
    ensures
        launch_environment(l).len() == 2,
        launch_environment(l)[0] == ("VMM_SLOT"@, decimal(l.slot as nat)),
        launch_environment(l)[1].0 == "VMM_PATH"@,
        parent_path(l.api_socket) matches Some(directory) ==> launch_environment(l)[1].1
            == lossy_text(directory),
        parent_path(l.api_socket) is None ==> launch_environment(l)[1].1 == "/"@,
{
}

/// A request is sent to its path, or to the root where it has none, with its body, for the host
/// "localhost", over a connection that is then closed, and with the type of the body where it has
/// one.
pub proof fn law_requests_are_sent_as_they_are(
    r: HttpRequest,
    method: HttpMethod,
    path: Seq<char>,
    body: Seq<u8>,
    kind: Option<Seq<char>>,
)
    requires
        is_unix_http_request(r, method, path, body, kind),
    ensures
        r.method == method,
        r.body@ == body,
        path.len() > 0 ==> r.uri@ == path,
        path.len() == 0 ==> r.uri@ == "/"@,
        r.headers@.len() == (if kind is Some {
            3int
        } else {
            2
        }),
        r.headers@[0].0@ == "host"@,
        r.headers@[0].1@ == "localhost"@,
        r.headers@[1].0@ == "connection"@,
        r.headers@[1].1@ == "close"@,
        kind matches Some(t) ==> r.headers@[2].0@ == "content-type"@ && r.headers@[2].1@ == t,
        request_uri(path) == r.uri@,
{
    let sent = pair_texts(r.headers@);
    assert(sent == request_headers(kind));
    assert(sent.len() == r.headers@.len());
    assert(sent[0] == (r.headers@[0].0@, r.headers@[0].1@));
    assert(sent[1] == (r.headers@[1].0@, r.headers@[1].1@));
    if kind is Some {
        assert(sent[2] == (r.headers@[2].0@, r.headers@[2].1@));
    }
}

/// A header value reads as text exactly where each of its bytes is a tab or a printing ASCII
/// character, and then as those characters.
pub proof fn law_header_text_is_printing_ascii(value: Seq<u8>)
    ensures
        header_text(value) is Some <==> (forall|i: int|
            0 <= i < value.len() ==> #[trigger] value[i] == 9 || ' ' as u8 <= value[i] <= '~' as u8),
        header_text(value) matches Some(text) ==> text.len() == value.len() && (forall|i: int|
            0 <= i < value.len() ==> (#[trigger] text[i]) as u32 == value[i]),
{
    assert forall|i: int| 0 <= i < value.len() implies visible(#[trigger] value[i]) == (value[i]
        == 9 || ' ' as u8 <= value[i] <= '~' as u8) by {}
}

/// An optional text is null in JSON where it is not there; a number is its decimal text.
pub proof fn law_json_of_simple_values(text: String, n: nat, list: Seq<serde_json::Value>, i: int)
    ensures
        json_opt(Some(text)) == JsonView::Text(text@),
        json_opt(None) == JsonView::Null,
        json_nat(n) == JsonView::Number(decimal(n)),
        json_values(list).len() == list.len(),
        0 <= i < list.len() ==> json_values(list)[i] == json_value(list[i]),
{
}

/// The size of a machine's memory in bytes is exact wherever it fits in 64 bits, and otherwise what
/// is left of it in 64 bits.
pub proof fn law_memory_is_told_in_bytes(mb: u64)
    ensures
        mb * 1_048_576 <= u64::MAX ==> memory_bytes(mb) == mb * 1_048_576,
        memory_bytes(mb) == (mb * 1_048_576) % 0x1_0000_0000_0000_0000,
{
}

/// What a hypervisor is asked to create: as many processors as the request has, at the start and at
/// the most, its memory in bytes, what it boots from, its disks in order, one network device that is
/// the slot's, a source of randomness, and nothing else.
pub proof fn law_machine_is_described_in_full(c: BootConfig, s: SlotStatus)
    ensures
        vm_request(c, s) is Object,
        ({
            let all = vm_request(c, s)->Object_0;
            &&& all.dom() =~= set!["cpus"@, "memory"@, "payload"@, "disks"@, "net"@, "rng"@]
            &&& all["cpus"@] == JsonView::Object(
                map![
                    "boot_vcpus"@ => JsonView::Number(decimal(c.cpus as nat)),
                    "max_vcpus"@ => JsonView::Number(decimal(c.cpus as nat))
                ],
            )
            &&& c.memory_mb * 1_048_576 <= u64::MAX ==> all["memory"@] == JsonView::Object(
                map!["size"@ => JsonView::Number(decimal((c.memory_mb * 1_048_576) as nat))],
            )
            &&& all["memory"@] == JsonView::Object(
                map!["size"@ => JsonView::Number(decimal(memory_bytes(c.memory_mb)))],
            )
            &&& all["payload"@] == payload_json(c)
            &&& all["disks"@] is Array
            &&& all["disks"@]->Array_0.len() == c.disks@.len()
            &&& forall|i: int|
                0 <= i < c.disks@.len() ==> #[trigger] all["disks"@]->Array_0[i] == disk_json(
                    c.disks@[i]@,
                )
            &&& all["net"@] is Array
            &&& all["net"@]->Array_0.len() == 1
            &&& all["net"@]->Array_0[0] == JsonView::Object(
                map![
                    "tap"@ => match s.tap {
                        Some(tap) => JsonView::Text(tap@),
                        None => JsonView::Null,
                    },
                    "mac"@ => match s.mac {
                        Some(mac) => JsonView::Text(mac@),
                        None => JsonView::Null,
                    }
                ],
            )
            &&& all["rng"@] == JsonView::Object(map!["src"@ => JsonView::Text("/dev/urandom"@)])
        }),
{
    reveal_strlit("cpus");
    reveal_strlit("memory");
    reveal_strlit("payload");
    reveal_strlit("disks");
    reveal_strlit("net");
    reveal_strlit("rng");
    assert("net"@[0] != "rng"@[0]);
    assert("cpus"@.len() == 4 && "memory"@.len() == 6 && "payload"@.len() == 7 && "disks"@.len()
        == 5 && "net"@.len() == 3 && "rng"@.len() == 3);
    law_memory_is_told_in_bytes(c.memory_mb);
}

/// A machine boots from its firmware under UEFI, and from its kernel, initial ramdisk and command
/// line otherwise; what is not given is null.
pub proof fn law_machine_boots_from_what_it_was_given(c: BootConfig, key: Seq<char>)
    ensures
        payload_json(c) is Object,
        ({
            let all = payload_json(c)->Object_0;
            let firmware = match c.firmware_path {
                Some(path) => JsonView::Text(path@),
                None => JsonView::Null,
            };
            let kernel = match c.kernel_path {
                Some(path) => JsonView::Text(path@),
                None => JsonView::Null,
            };
            let initrd = match c.initrd_path {
                Some(path) => JsonView::Text(path@),
                None => JsonView::Null,
            };
            let cmdline = match c.cmdline {
                Some(line) => JsonView::Text(line@),
                None => JsonView::Null,
            };
            let uefi = ascii_lower(c.boot_mode@) == "uefi"@;
            &&& uefi ==> all.dom() =~= set!["firmware"@] && all["firmware"@] == firmware
            &&& !uefi ==> all.dom() =~= set!["kernel"@, "initramfs"@, "cmdline"@] && all["kernel"@]
                == kernel && all["initramfs"@] == initrd && all["cmdline"@] == cmdline
            &&& holds_text(payload_json(c), key) <==> all.dom().contains(key) && all[key] is Text
        }),
{
    reveal_strlit("kernel");
    reveal_strlit("initramfs");
    reveal_strlit("cmdline");
    assert("kernel"@.len() == 6 && "initramfs"@.len() == 9 && "cmdline"@.len() == 7);
}

/// A disk is told by its path, and by its type where that is known.
pub proof fn law_disk_is_told_by_its_path(path: Seq<char>)
    ensures
        disk_json(path) is Object,
        ({
            let all = disk_json(path)->Object_0;
            &&& all["path"@] == JsonView::Text(path)
            &&& image_type(path) is None ==> all.dom() =~= set!["path"@]
            &&& image_type(path) matches Some(kind) ==> all.dom() =~= set!["path"@, "image_type"@]
                && all["image_type"@] == JsonView::Text(kind)
        }),
{
    reveal_strlit("path");
    reveal_strlit("image_type");
    assert("path"@.len() == 4 && "image_type"@.len() == 10);
}

proof fn lemma_tail_after(head: Seq<char>, c: char, tail: Seq<char>)
    requires
        forall|i: int| 0 <= i < tail.len() ==> #[trigger] tail[i] != c,
    ensures
        after_last(head + seq![c] + tail, c) == Some(tail),
        after_last(tail, c) is None,
{
    let s = head + seq![c] + tail;
    law_tail_follows_the_last(s, c);
    law_tail_follows_the_last(tail, c);
    assert(s[head.len() as int] == c);
    let t = after_last(s, c)->0;
    assert(t.len() == tail.len()) by {
        let at = s.len() - t.len() - 1;
        if t.len() < tail.len() {
            assert(s[at] == tail[at - head.len() - 1]);
        }
        if t.len() > tail.len() {
            assert(s.skip(s.len() - t.len())[head.len() - (s.len() - t.len())] == s[head.len() as int]);
        }
    }
    assert(t =~= tail) by {
        assert(s.skip(s.len() - t.len()) =~= tail);
    }
    if after_last(tail, c) is Some {
        let u = after_last(tail, c)->0;
        assert(tail[tail.len() - u.len() - 1] == c);
    }
}

proof fn lemma_last_component_of(directory: Seq<char>, name: Seq<char>)
    requires
        directory.len() == 0 || directory.last() == '/',
        name.len() > 0,
        name != seq!['.'],
        forall|i: int| 0 <= i < name.len() ==> #[trigger] name[i] != '/',
    ensures
        last_component(directory + name) == name,
{
    let path = directory + name;
    assert(path.last() == name[name.len() - 1]);
    if directory.len() == 0 {
        assert(path =~= name);
        lemma_tail_after(Seq::empty(), '/', name);
    } else {
        assert(path =~= directory.drop_last() + seq!['/'] + name);
        lemma_tail_after(directory.drop_last(), '/', name);
    }
}

/// The type of a disk goes by what follows the last dot of its file name, in capitals or not, where
/// something stands before that dot.
pub proof fn law_image_type_goes_by_the_extension(
    directory: Seq<char>,
    stem: Seq<char>,
    extension: Seq<char>,
)
    requires
        directory.len() == 0 || directory.last() == '/',
        forall|i: int| 0 <= i < stem.len() ==> #[trigger] stem[i] != '/',
        forall|i: int|
            0 <= i < extension.len() ==> #[trigger] extension[i] != '/' && extension[i] != '.',
    ensures
        ({
            let kind = ascii_lower(extension);
            let path = directory + (stem + seq!['.'] + extension);
            &&& stem.len() == 0 ==> image_type(path) is None || extension.len() == 0
            &&& stem.len() > 0 && (kind == "qcow2"@ || kind == "qcow"@) ==> image_type(path)
                == Some("Qcow2"@)
            &&& stem.len() > 0 && kind == "raw"@ ==> image_type(path) == Some("Raw"@)
            &&& stem.len() > 0 && kind != "qcow2"@ && kind != "qcow"@ && kind != "raw"@
                ==> image_type(path) is None
        }),
{
    let name = stem + seq!['.'] + extension;
    let path = directory + name;
    reveal_strlit("qcow2");
    reveal_strlit("qcow");
    reveal_strlit("raw");
    assert("qcow2"@.len() == 5 && "qcow"@.len() == 4 && "raw"@.len() == 3);
    assert(ascii_lower(extension).len() == extension.len());
    assert forall|i: int| 0 <= i < name.len() implies #[trigger] name[i] != '/' by {
        if i < stem.len() {
            assert(name[i] == stem[i]);
        } else if i > stem.len() {
            assert(name[i] == extension[i - stem.len() - 1]);
        }
    }
    if stem.len() + extension.len() > 0 {
        assert(name.len() > 1);
        lemma_last_component_of(directory, name);
        lemma_tail_after(stem, '.', extension);
        if name == seq!['.', '.'] {
            assert(extension.len() == 0) by {
                if extension.len() > 0 {
                    assert(name[name.len() - 1] == extension[extension.len() - 1]);
                }
            }
        }
        assert(extension_of(name) == (if stem.len() > 0 {
            Some(extension)
        } else {
            None
        }));
        assert(path_extension(path) is None || path_extension(path) == extension_of(name));
    }
}

/// A file name without a dot tells no type, and slashes and lone dots at the end of a path do not
/// count.
pub proof fn law_image_type_needs_a_dot(
    directory: Seq<char>,
    name: Seq<char>,
    path: Seq<char>,
)
    requires
        directory.len() == 0 || directory.last() == '/',
        name.len() > 0,
        forall|i: int| 0 <= i < name.len() ==> #[trigger] name[i] != '/' && name[i] != '.',
    ensures
        image_type(directory + name) is None,
        image_type(path + seq!['/']) == image_type(path),
        image_type(path + seq!['/', '.']) == image_type(path),
{
    assert(name != seq!['.']) by {
        if name == seq!['.'] {
            assert(name[0] == '.');
        }
    }
    lemma_last_component_of(directory, name);
    lemma_tail_after(Seq::empty(), '.', name);
    let one = path + seq!['/'];
    assert(one.drop_last() =~= path);
    assert(last_component(one) == last_component(path));
    let two = path + seq!['/', '.'];
    assert(two =~= path + seq!['/'] + seq!['.']);
    lemma_tail_after(path, '/', seq!['.']);
    assert(two.drop_last() =~= one);
    assert(last_component(two) == last_component(one));
}

/// What a hypervisor is asked to restore or to write is the one path that was given.
pub proof fn law_snapshots_are_told_by_their_path(c: BootConfig, path: Seq<char>)
    ensures
        restore_request(c) is Object,
        restore_request(c)->Object_0.dom() =~= set!["source_url"@],
        c.snapshot_path matches Some(given) ==> restore_request(c)->Object_0["source_url"@]
            == JsonView::Text("file://"@ + given@),
        c.snapshot_path is None ==> restore_request(c)->Object_0["source_url"@] == JsonView::Null,
        snapshot_request(path) is Object,
        snapshot_request(path)->Object_0.dom() =~= set!["destPath"@],
        snapshot_request(path)->Object_0["destPath"@] == JsonView::Text(path),
{
}

/// A refusal reads as its status, and what the hypervisor said without the white space around it,
/// where it said anything.
pub proof fn law_refusals_read_as_status_and_text(
    status: u16,
    before: Seq<char>,
    said: Seq<char>,
    after: Seq<char>,
)
    requires
        forall|i: int| 0 <= i < before.len() ==> white_space(#[trigger] before[i]),
        forall|i: int| 0 <= i < after.len() ==> white_space(#[trigger] after[i]),
        said.len() > 0 ==> !white_space(said[0]) && !white_space(said[said.len() - 1]),
    ensures
        said.len() > 0 ==> backend_message(status, before + said + after)
            == "backend returned status "@ + decimal(status as nat) + ": "@ + said,
        said.len() == 0 ==> backend_message(status, before + said + after)
            == "backend returned status "@ + decimal(status as nat),
{
    law_trimming_takes_white_space_at_the_ends(before, said, after);
}

/// The refusal of a hypervisor reads by its status and the text of its body.
pub proof fn law_refusals_read_by_their_body(response: ProxyResponse)
    ensures
        response.body@.len() == 0 ==> backend_error_message(response)
            == "backend returned status "@ + decimal(response.status as nat),
        response.body@.len() > 0 ==> backend_error_message(response) == backend_message(
            response.status,
            lossy_text(response.body@),
        ),
{
}

/// A value was written where there are bytes, and these are the ones.
pub proof fn law_written_values_are_their_bytes(r: Result<Vec<u8>, String>, bytes: Seq<u8>)
    ensures
        is_written(r, bytes) <==> r is Ok && r->Ok_0@ == bytes,
{
}

} // verus!
