//! The bodies that are sent to a hypervisor, and how its refusals read.
use vstd::prelude::*;

use crate::error::{ApiError, ApiErrorView};
use crate::json::{
    json_array, json_insert, json_map, json_number, json_object, json_opt, json_opt_text,
    json_text, json_value, json_values, JsonView,
};
use crate::numbers::{decimal, push_decimal};
use crate::pool::{ProxyResponse, SlotStatus};
use crate::text::{
    after_last, ascii_lower, chars_of, from_utf8_lossy, lossy_text, rsplit_tail, same_text,
    text_between, texts, to_ascii_lowercase, trim, trimmed,
};
use crate::vm_validation::{
    absolute, acceptable, invalid, is_absolute, BootConfig, MAX_MEMORY_MB,
};

verus! {

/// The last component of a path: what follows its last slash, once slashes and `.` components at
/// its end are taken away.
pub open spec fn last_component(path: Seq<char>) -> Seq<char>
    decreases path.len(),
{
    if path.len() == 0 {
        path
    } else if path.last() == '/' {
        last_component(path.drop_last())
    } else {
        let name = match after_last(path, '/') {
            Some(tail) => tail,
            None => path,
        };
        if name == seq!['.'] {
            last_component(path.drop_last())
        } else {
            name
        }
    }
}

/// The text after the last dot of a file name. A name without a dot has none, and neither has one
/// whose only dot comes first.
pub open spec fn extension_of(name: Seq<char>) -> Option<Seq<char>> {
    match after_last(name, '.') {
        Some(tail) => if tail.len() + 1 < name.len() {
            Some(tail)
        } else {
            None
        },
        None => None,
    }
}

/// The extension of a path. A path that ends in `..` names no file.
pub open spec fn path_extension(path: Seq<char>) -> Option<Seq<char>> {
    let name = last_component(path);
    if name == seq!['.', '.'] {
        None
    } else {
        extension_of(name)
    }
}

fn file_name(path: &str) -> (r: String)
    ensures
        r@ == last_component(path@),
{
    let chars = chars_of(path);
    let mut end: usize = chars.len();
    proof {
        assert(chars@.take(end as int) =~= chars@);
    }
    while end > 0
        invariant
            end <= chars@.len(),
            last_component(path@) == last_component(chars@.take(end as int)),
        decreases end,
    {
        let ghost kept = chars@.take(end as int);
        proof {
            assert(kept.last() == chars@[end - 1]);
            assert(kept.drop_last() =~= chars@.take(end - 1));
        }
        if chars[end - 1] == '/' {
            end -= 1;
        } else {
            let rest = text_between(&chars, 0, end);
            proof {
                assert(rest@ =~= kept);
            }
            let name = match rsplit_tail(rest.as_str(), '/') {
                Some(tail) => tail,
                None => rest,
            };
            if same_text(name.as_str(), ".") {
                proof {
                    reveal_strlit(".");
                    assert(name@ =~= seq!['.']);
                }
                end -= 1;
            } else {
                proof {
                    reveal_strlit(".");
                    if name@ == seq!['.'] {
                        assert(name@ =~= "."@);
                    }
                }
                return name;
            }
        }
    }
    proof {
        assert(chars@.take(0) =~= Seq::empty());
    }
    String::new()
}

fn extension(path: &str) -> (r: Option<String>)
    ensures
        match r {
            Some(e) => path_extension(path@) == Some(e@),
            None => path_extension(path@) is None,
        },
{
    let name = file_name(path);
    proof {
        reveal_strlit("..");
        assert(".."@ =~= seq!['.', '.']);
    }
    if same_text(name.as_str(), "..") {
        return None;
    }
    match rsplit_tail(name.as_str(), '.') {
        Some(tail) => {
            let tail_len: usize = chars_of(tail.as_str()).len();
            let name_len: usize = chars_of(name.as_str()).len();
            proof {
                lemma_tail_is_shorter(name@, '.');
            }
            if name_len - tail_len > 1 {
                Some(tail)
            } else {
                None
            }
        },
        None => None,
    }
}

proof fn lemma_tail_is_shorter(s: Seq<char>, c: char)
    ensures
        after_last(s, c) matches Some(tail) ==> tail.len() < s.len(),
    decreases s.len(),
{
    if s.len() > 0 && s.last() != c {
        lemma_tail_is_shorter(s.drop_last(), c);
    }
}

/// The image type that a hypervisor is told for a disk, where its extension gives one.
pub open spec fn image_type(path: Seq<char>) -> Option<Seq<char>> {
    match path_extension(path) {
        Some(e) => {
            let kind = ascii_lower(e);
            if kind == "qcow2"@ || kind == "qcow"@ {
                Some("Qcow2"@)
            } else if kind == "raw"@ {
                Some("Raw"@)
            } else {
                None
            }
        },
        None => None,
    }
}

/// The image type of a disk, by its extension.
pub fn disk_image_type(path: &str) -> (r: Option<&'static str>)
    ensures
        match r {
            Some(t) => image_type(path@) == Some(t@),
            None => image_type(path@) is None,
        },
{
    match extension(path) {
        Some(e) => {
            let kind = to_ascii_lowercase(e.as_str());
            if same_text(kind.as_str(), "qcow2") || same_text(kind.as_str(), "qcow") {
                Some("Qcow2")
            } else if same_text(kind.as_str(), "raw") {
                Some("Raw")
            } else {
                None
            }
        },
        None => None,
    }
}

/// A number in JSON.
pub open spec fn json_nat(n: nat) -> JsonView {
    JsonView::Number(decimal(n))
}

/// How a disk is described to a hypervisor.
pub open spec fn disk_json(path: Seq<char>) -> JsonView {
    match image_type(path) {
        Some(t) => JsonView::Object(
            map!["path"@ => JsonView::Text(path), "image_type"@ => JsonView::Text(t)],
        ),
        None => JsonView::Object(map!["path"@ => JsonView::Text(path)]),
    }
}

/// What a machine boots from.
pub open spec fn payload_json(c: BootConfig) -> JsonView {
    if ascii_lower(c.boot_mode@) == "uefi"@ {
        JsonView::Object(map!["firmware"@ => json_opt(c.firmware_path)])
    } else {
        JsonView::Object(
            map![
                "kernel"@ => json_opt(c.kernel_path),
                "initramfs"@ => json_opt(c.initrd_path),
                "cmdline"@ => json_opt(c.cmdline)
            ],
        )
    }
}

/// The size of `mb` megabytes in bytes, in 64 bits.
pub open spec fn memory_bytes(mb: u64) -> nat {
    ((mb as nat * 0x10_0000) % 0x1_0000_0000_0000_0000) as nat
}

/// The body of a request to create a machine in a reserved slot.
pub open spec fn vm_request(c: BootConfig, s: SlotStatus) -> JsonView {
    JsonView::Object(
        map![
            "cpus"@ => JsonView::Object(
                map![
                    "boot_vcpus"@ => json_nat(c.cpus as nat),
                    "max_vcpus"@ => json_nat(c.cpus as nat)
                ],
            ),
            "memory"@ => JsonView::Object(map!["size"@ => json_nat(memory_bytes(c.memory_mb))]),
            "payload"@ => payload_json(c),
            "disks"@ => JsonView::Array(
                texts(c.disks@).map_values(|p: Seq<char>| disk_json(p)),
            ),
            "net"@ => JsonView::Array(
                seq![
                    JsonView::Object(map!["tap"@ => json_opt(s.tap), "mac"@ => json_opt(s.mac)]),
                ],
            ),
            "rng"@ => JsonView::Object(map!["src"@ => JsonView::Text("/dev/urandom"@)])
        ],
    )
}

fn shift_to_bytes(mb: u64) -> (r: u64)
    ensures
        r == memory_bytes(mb),
{
    proof {
        assert(mb << 20u64 == (mb * 0x10_0000) % 0x1_0000_0000_0000_0000) by (bit_vector);
    }
    mb << 20
}

fn disk_value(path: &String) -> (r: serde_json::Value)
    ensures
        json_value(r) == disk_json(path@),
{
    let mut disk = json_map();
    json_insert(&mut disk, "path", json_text(path.clone()));
    match disk_image_type(path.as_str()) {
        Some(image) => {
            json_insert(&mut disk, "image_type", json_text(image.to_owned()));
        },
        None => {},
    }
    json_object(disk)
}

fn disk_list(disks: &Vec<String>) -> (r: Vec<serde_json::Value>)
    ensures
        json_values(r@) == texts(disks@).map_values(|p: Seq<char>| disk_json(p)),
{
    let ghost wanted = texts(disks@).map_values(|p: Seq<char>| disk_json(p));
    let mut out: Vec<serde_json::Value> = Vec::new();
    let mut i: usize = 0;
    while i < disks.len()
        invariant
            i <= disks@.len(),
            wanted == texts(disks@).map_values(|p: Seq<char>| disk_json(p)),
            json_values(out@) =~= wanted.take(i as int),
        decreases disks@.len() - i,
    {
        let value = disk_value(&disks[i]);
        let ghost before = out@;
        out.push(value);
        proof {
            assert(json_values(out@) =~= json_values(before).push(json_value(value)));
            assert(wanted[i as int] == disk_json(disks@[i as int]@));
        }
        i += 1;
    }
    proof {
        assert(wanted.take(disks@.len() as int) =~= wanted);
    }
    out
}

fn payload_value(config: &BootConfig) -> (r: serde_json::Value)
    ensures
        json_value(r) == payload_json(*config),
{
    let boot_mode = to_ascii_lowercase(config.boot_mode.as_str());
    let mut payload = json_map();
    if same_text(boot_mode.as_str(), "uefi") {
        json_insert(&mut payload, "firmware", json_opt_text(&config.firmware_path));
    } else {
        json_insert(&mut payload, "kernel", json_opt_text(&config.kernel_path));
        json_insert(&mut payload, "initramfs", json_opt_text(&config.initrd_path));
        json_insert(&mut payload, "cmdline", json_opt_text(&config.cmdline));
    }
    json_object(payload)
}

/// The body of a request to create a machine in a reserved slot.
pub fn create_vm_request_body(config: &BootConfig, reserved: &SlotStatus) -> (r: serde_json::Value)
    ensures
        json_value(r) == vm_request(*config, *reserved),
{
    let mut cpus = json_map();
    json_insert(&mut cpus, "boot_vcpus", json_number(config.cpus as u64));
    json_insert(&mut cpus, "max_vcpus", json_number(config.cpus as u64));
    let mut memory = json_map();
    json_insert(&mut memory, "size", json_number(shift_to_bytes(config.memory_mb)));
    let mut device = json_map();
    json_insert(&mut device, "tap", json_opt_text(&reserved.tap));
    json_insert(&mut device, "mac", json_opt_text(&reserved.mac));
    let device_value = json_object(device);
    let mut net: Vec<serde_json::Value> = Vec::new();
    net.push(device_value);
    proof {
        assert(json_values(net@) =~= seq![json_value(device_value)]);
    }
    let mut rng = json_map();
    json_insert(&mut rng, "src", json_text("/dev/urandom".to_owned()));
    let mut body = json_map();
    json_insert(&mut body, "cpus", json_object(cpus));
    json_insert(&mut body, "memory", json_object(memory));
    json_insert(&mut body, "payload", payload_value(config));
    json_insert(&mut body, "disks", json_array(disk_list(&config.disks)));
    json_insert(&mut body, "net", json_array(net));
    json_insert(&mut body, "rng", json_object(rng));
    json_object(body)
}

/// The body of a request to restore a machine from a snapshot.
pub open spec fn restore_request(c: BootConfig) -> JsonView {
    JsonView::Object(
        map![
            "source_url"@ => match c.snapshot_path {
                Some(path) => JsonView::Text("file://"@ + path@),
                None => JsonView::Null,
            }
        ],
    )
}

/// The body of a request to restore a machine from a snapshot.
pub fn create_restore_request_body(config: &BootConfig) -> (r: serde_json::Value)
    ensures
        json_value(r) == restore_request(*config),
{
    let source_url = match &config.snapshot_path {
        Some(path) => {
            let mut url = "file://".to_owned();
            url.append(path.as_str());
            Some(url)
        },
        None => None,
    };
    let mut body = json_map();
    json_insert(&mut body, "source_url", json_opt_text(&source_url));
    json_object(body)
}

/// The body of a request to write a snapshot.
pub open spec fn snapshot_request(dest_path: Seq<char>) -> JsonView {
    JsonView::Object(map!["destPath"@ => JsonView::Text(dest_path)])
}

/// The body of a request to write a snapshot to an absolute path.
pub fn snapshot_request_body(dest_path: String) -> (r: Result<serde_json::Value, ApiError>)
    ensures
        r is Ok <==> absolute(dest_path@),
        r matches Ok(body) ==> json_value(body) == snapshot_request(dest_path@),
        r matches Err(e) ==> e@ == (ApiErrorView::Validation {
            field: Some("destPath"@),
            error: "destPath must be absolute"@,
        }),
{
    if !is_absolute(dest_path.as_str()) {
        return Err(invalid("destPath", "destPath must be absolute".to_owned()));
    }
    let mut body = json_map();
    json_insert(&mut body, "destPath", json_text(dest_path));
    Ok(json_object(body))
}

/// How a refusal with this status and body text reads.
pub open spec fn backend_message(status: u16, body: Seq<char>) -> Seq<char> {
    let said = trimmed(body);
    if said.len() == 0 {
        "backend returned status "@ + decimal(status as nat)
    } else {
        "backend returned status "@ + decimal(status as nat) + ": "@ + said
    }
}

/// How the refusal of a hypervisor reads. A body of no bytes says nothing, whatever it is read as.
pub open spec fn backend_error_message(response: ProxyResponse) -> Seq<char> {
    backend_message(
        response.status,
        if response.body@.len() == 0 {
            Seq::empty()
        } else {
            lossy_text(response.body@)
        },
    )
}

/// Writes how a refusal with this status and body text reads.
pub fn backend_error_text(status: u16, body: &str) -> (r: String)
    ensures
        r@ == backend_message(status, body@),
{
    let said = trim(body);
    let mut out = "backend returned status ".to_owned();
    push_decimal(&mut out, status as u64);
    if !said.as_str().is_empty() {
        out.append(": ");
        out.append(said.as_str());
    }
    out
}

/// Writes how the refusal of a hypervisor reads.
pub fn format_backend_error(response: &ProxyResponse) -> (r: String)
    ensures
        r@ == backend_error_message(*response),
{
    if response.body.is_empty() {
        proof {
            reveal_strlit("");
            assert(""@ =~= Seq::empty());
        }
        return backend_error_text(response.status, "");
    }
    let body = from_utf8_lossy(&response.body);
    backend_error_text(response.status, body.as_str())
}

/// The member of an object holds a text.
pub open spec fn holds_text(v: JsonView, key: Seq<char>) -> bool {
    match v {
        JsonView::Object(members) => members.contains_key(key) && members[key] is Text,
        _ => false,
    }
}

/// An accepted machine that is not restored has something to boot from.
pub proof fn law_accepted_machine_has_something_to_boot(c: BootConfig)
    requires
        acceptable(c),
        c.snapshot_path is None,
    ensures
        holds_text(
            payload_json(c),
            if ascii_lower(c.boot_mode@) == "uefi"@ {
                "firmware"@
            } else {
                "kernel"@
            },
        ),
{
    reveal_strlit("linux");
    reveal_strlit("uefi");
    reveal_strlit("kernel");
    reveal_strlit("initramfs");
    reveal_strlit("cmdline");
    assert("linux"@.len() == 5 && "uefi"@.len() == 4);
    assert("kernel"@[0] != "initramfs"@[0] && "kernel"@[0] != "cmdline"@[0]);
}

/// The memory of an accepted machine is told to the hypervisor in full: nothing is cut off.
pub proof fn law_accepted_memory_is_exact(c: BootConfig)
    requires
        acceptable(c),
    ensures
        memory_bytes(c.memory_mb) == c.memory_mb * 0x10_0000,
{
    assert(c.memory_mb * 0x10_0000 <= MAX_MEMORY_MB * 0x10_0000);
}

} // verus!
