//! The rules that a boot request has to meet.
use vstd::prelude::*;

use crate::error::{api_outcome, ApiError, ApiErrorView};
use crate::text::{
    ascii_lower, blank, chars_of, is_blank, lower_char, same_text, texts, to_ascii_lowercase,
    white_space,
};

verus! {

/// What a client asks to be booted. Paths are kept as the text they were given in.
#[derive(Debug)]
pub struct BootConfig {
    pub name: String,
    pub cpus: u16,
    pub memory_mb: u64,
    pub boot_mode: String,
    pub disks: Vec<String>,
    pub kernel_path: Option<String>,
    pub initrd_path: Option<String>,
    pub cmdline: Option<String>,
    pub firmware_path: Option<String>,
    pub snapshot_path: Option<String>,
}

/// The most megabytes whose size in bytes fits in 64 bits.
pub const MAX_MEMORY_MB: u64 = 17_592_186_044_415;

/// A path is absolute when it begins at the root.
pub open spec fn absolute(path: Seq<char>) -> bool {
    path.len() > 0 && path[0] == '/'
}

/// Whether the path begins at the root.
pub fn is_absolute(path: &str) -> (r: bool)
    ensures
        r == absolute(path@),
{
    let chars = chars_of(path);
    chars.len() > 0 && chars[0] == '/'
}

/// The first path that is not absolute.
pub open spec fn first_relative(paths: Seq<Seq<char>>) -> Option<Seq<char>>
    decreases paths.len(),
{
    if paths.len() == 0 {
        None
    } else if !absolute(paths[0]) {
        Some(paths[0])
    } else {
        first_relative(paths.skip(1))
    }
}

/// An optional path that is given and not absolute.
pub open spec fn given_relative(path: Option<String>) -> bool {
    path matches Some(p) && !absolute(p@)
}

/// The request is rejected for `field`.
pub open spec fn fault(field: Seq<char>, error: Seq<char>) -> Option<ApiErrorView> {
    Some(ApiErrorView::Validation { field: Some(field), error })
}

/// The first rule that a request breaks, in the order in which the rules are checked.
pub open spec fn config_fault(c: BootConfig) -> Option<ApiErrorView> {
    let mode = ascii_lower(c.boot_mode@);
    if blank(c.name@) {
        fault("name"@, "name is required"@)
    } else if c.cpus == 0 {
        fault("cpus"@, "cpus must be greater than zero"@)
    } else if c.memory_mb == 0 {
        fault("memoryMb"@, "memoryMb must be greater than zero"@)
    } else if blank(c.boot_mode@) {
        fault("bootMode"@, "bootMode is required"@)
    } else if mode != "linux"@ && mode != "uefi"@ {
        fault("bootMode"@, "bootMode must be one of: linux, uefi"@)
    } else if c.memory_mb > MAX_MEMORY_MB {
        fault("memoryMb"@, "memoryMb is too large"@)
    } else if c.snapshot_path is None && mode == "linux"@ && c.kernel_path is None {
        fault("kernelPath"@, "kernelPath is required when bootMode=linux"@)
    } else if c.snapshot_path is None && mode == "uefi"@ && c.firmware_path is None {
        fault("firmwarePath"@, "firmwarePath is required when bootMode=uefi"@)
    } else if first_relative(texts(c.disks@)) is Some {
        fault(
            "disks"@,
            "disk path '"@ + first_relative(texts(c.disks@))->0 + "' must be absolute"@,
        )
    } else if given_relative(c.kernel_path) {
        fault("kernelPath"@, "kernelPath"@ + " must be absolute"@)
    } else if given_relative(c.initrd_path) {
        fault("initrdPath"@, "initrdPath"@ + " must be absolute"@)
    } else if given_relative(c.firmware_path) {
        fault("firmwarePath"@, "firmwarePath"@ + " must be absolute"@)
    } else if given_relative(c.snapshot_path) {
        fault("snapshotPath"@, "snapshotPath"@ + " must be absolute"@)
    } else {
        None
    }
}

/// Names the field that a request is rejected for.
pub fn invalid(field: &str, error: String) -> (r: ApiError)
    ensures
        r@ == (ApiErrorView::Validation { field: Some(field@), error: error@ }),
{
    ApiError::Validation { field: Some(field.to_owned()), error }
}

fn find_relative(paths: &Vec<String>) -> (r: Option<usize>)
    ensures
        match r {
            Some(i) => i < paths@.len() && first_relative(texts(paths@)) == Some(paths@[i as int]@),
            None => first_relative(texts(paths@)) is None,
        },
{
    let ghost all = texts(paths@);
    let mut i: usize = 0;
    proof {
        assert(all.skip(0) =~= all);
    }
    while i < paths.len()
        invariant
            i <= paths@.len(),
            all == texts(paths@),
            first_relative(all) == first_relative(all.skip(i as int)),
        decreases paths@.len() - i,
    {
        proof {
            assert(all.skip(i as int)[0] == paths@[i as int]@);
            assert(all.skip(i as int).skip(1) =~= all.skip(i + 1));
        }
        if !is_absolute(paths[i].as_str()) {
            return Some(i);
        }
        i += 1;
    }
    None
}

fn check_given_path(field: &str, path: &Option<String>) -> (r: Result<(), ApiError>)
    ensures
        api_outcome(r) == (if given_relative(*path) {
            Err::<(), ApiErrorView>(
                ApiErrorView::Validation {
                    field: Some(field@),
                    error: field@ + " must be absolute"@,
                },
            )
        } else {
            Ok(())
        }),
{
    if let Some(p) = path {
        if !is_absolute(p.as_str()) {
            let mut error = field.to_owned();
            error.append(" must be absolute");
            return Err(invalid(field, error));
        }
    }
    Ok(())
}

/// Checks a boot request against every rule.
pub fn validate_boot_config(config: &BootConfig) -> (r: Result<(), ApiError>)
    ensures
        api_outcome(r) == (match config_fault(*config) {
            Some(e) => Err::<(), ApiErrorView>(e),
            None => Ok(()),
        }),
{
    if is_blank(config.name.as_str()) {
        return Err(invalid("name", "name is required".to_owned()));
    }
    if config.cpus == 0 {
        return Err(invalid("cpus", "cpus must be greater than zero".to_owned()));
    }
    if config.memory_mb == 0 {
        return Err(invalid("memoryMb", "memoryMb must be greater than zero".to_owned()));
    }
    if is_blank(config.boot_mode.as_str()) {
        return Err(invalid("bootMode", "bootMode is required".to_owned()));
    }
    let boot_mode = to_ascii_lowercase(config.boot_mode.as_str());
    let linux = same_text(boot_mode.as_str(), "linux");
    let uefi = same_text(boot_mode.as_str(), "uefi");
    if !linux && !uefi {
        return Err(invalid("bootMode", "bootMode must be one of: linux, uefi".to_owned()));
    }
    if config.memory_mb > MAX_MEMORY_MB {
        return Err(invalid("memoryMb", "memoryMb is too large".to_owned()));
    }
    if config.snapshot_path.is_none() {
        if linux && config.kernel_path.is_none() {
            return Err(
                invalid("kernelPath", "kernelPath is required when bootMode=linux".to_owned()),
            );
        }
        if uefi && config.firmware_path.is_none() {
            return Err(
                invalid("firmwarePath", "firmwarePath is required when bootMode=uefi".to_owned()),
            );
        }
    }
    if let Some(i) = find_relative(&config.disks) {
        let mut error = "disk path '".to_owned();
        error.append(config.disks[i].as_str());
        error.append("' must be absolute");
        return Err(invalid("disks", error));
    }
    match check_given_path("kernelPath", &config.kernel_path) {
        Err(e) => {
            return Err(e);
        },
        Ok(_) => {},
    }
    match check_given_path("initrdPath", &config.initrd_path) {
        Err(e) => {
            return Err(e);
        },
        Ok(_) => {},
    }
    match check_given_path("firmwarePath", &config.firmware_path) {
        Err(e) => {
            return Err(e);
        },
        Ok(_) => {},
    }
    check_given_path("snapshotPath", &config.snapshot_path)
}

/// A boot request that can be carried out.
pub open spec fn acceptable(c: BootConfig) -> bool {
    let mode = ascii_lower(c.boot_mode@);
    &&& !blank(c.name@)
    &&& c.cpus > 0
    &&& 0 < c.memory_mb <= MAX_MEMORY_MB
    &&& mode == "linux"@ || mode == "uefi"@
    &&& c.snapshot_path is Some || (if mode == "linux"@ {
        c.kernel_path is Some
    } else {
        c.firmware_path is Some
    })
    &&& forall|i: int| 0 <= i < c.disks@.len() ==> absolute(#[trigger] c.disks@[i]@)
    &&& !given_relative(c.kernel_path)
    &&& !given_relative(c.initrd_path)
    &&& !given_relative(c.firmware_path)
    &&& !given_relative(c.snapshot_path)
}

proof fn lemma_first_relative(paths: Seq<Seq<char>>)
    ensures
        first_relative(paths) is None <==> (forall|i: int|
            0 <= i < paths.len() ==> absolute(#[trigger] paths[i])),
    decreases paths.len(),
{
    if paths.len() > 0 && absolute(paths[0]) {
        let rest = paths.skip(1);
        lemma_first_relative(rest);
        if first_relative(rest) is None {
            assert forall|i: int| 0 <= i < paths.len() implies absolute(#[trigger] paths[i]) by {
                if i > 0 {
                    assert(paths[i] == rest[i - 1]);
                }
            }
        } else {
            let i = choose|i: int| 0 <= i < rest.len() && !absolute(#[trigger] rest[i]);
            assert(paths[i + 1] == rest[i]);
        }
    }
}

/// A request passes validation exactly when it is acceptable.
pub proof fn law_accepted_iff_acceptable(c: BootConfig)
    ensures
        config_fault(c) is None <==> acceptable(c),
{
    let all = texts(c.disks@);
    lemma_first_relative(all);
    let mode = ascii_lower(c.boot_mode@);
    reveal_strlit("linux");
    reveal_strlit("uefi");
    if mode == "linux"@ || mode == "uefi"@ {
        assert(mode.len() == c.boot_mode@.len());
        assert(mode[0] == lower_char(c.boot_mode@[0]));
        assert(mode[0] == 'l' || mode[0] == 'u');
        assert(!white_space(c.boot_mode@[0]));
    }
    if first_relative(all) is None {
        assert forall|i: int| 0 <= i < c.disks@.len() implies absolute(
            #[trigger] c.disks@[i]@,
        ) by {
            assert(all[i] == c.disks@[i]@);
        }
    }
    if acceptable(c) {
        assert forall|i: int| 0 <= i < all.len() implies absolute(#[trigger] all[i]) by {
            assert(all[i] == c.disks@[i]@);
        }
    }
}

} // verus!
