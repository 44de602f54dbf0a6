//! The tap device of a slot: when it counts as there, and how it is put on the bridge.
use vstd::prelude::*;

use crate::ch_client::opt_str;
use crate::io_error::attempt;
use crate::pool::{outcome, PoolError, PoolErrorView};
use crate::text::{
    ascii_lower, contains, from_utf8_lossy, lossy_text, occurs, texts, to_ascii_lowercase, trim,
    trimmed,
};

verus! {

/// The message says that the device is already there.
pub open spec fn tap_exists(message: Seq<char>) -> bool {
    let m = ascii_lower(message);
    occurs(m, "file exists"@) || occurs(m, "already exists"@) || occurs(
        m,
        "device or resource busy"@,
    )
}

/// Whether the message says that the device is already there.
pub fn is_tap_exists_error(message: &str) -> (r: bool)
    ensures
        r == tap_exists(message@),
{
    let m = to_ascii_lowercase(message);
    contains(m.as_str(), "file exists") || contains(m.as_str(), "already exists") || contains(
        m.as_str(),
        "device or resource busy",
    )
}

/// What is left to do for a tap device.
#[derive(Debug)]
pub enum TapStep {
    /// Nothing: the device is ready.
    Ready,
    /// `ip` is to be run with these arguments; `attach_tap_to_bridge` takes what came of it.
    Attach(Vec<String>),
}

/// A `TapStep` with its texts as sequences.
pub enum TapStepView {
    Ready,
    Attach(Seq<Seq<char>>),
}

impl View for TapStep {
    type V = TapStepView;

    open spec fn view(&self) -> TapStepView {
        match *self {
            TapStep::Ready => TapStepView::Ready,
            TapStep::Attach(args) => TapStepView::Attach(texts(args@)),
        }
    }
}

/// The arguments with which `ip` puts a device on a bridge.
pub open spec fn attach_args(name: Seq<char>, bridge: Seq<char>) -> Seq<Seq<char>> {
    seq!["link"@, "set"@, "dev"@, name, "master"@, bridge]
}

/// What comes after the attempt to create a device. One that was there before will do.
pub open spec fn tap_step(
    name: Seq<char>,
    bridge: Option<Seq<char>>,
    created: Result<(), Seq<char>>,
) -> Result<TapStepView, PoolErrorView> {
    match created {
        Err(error) if !tap_exists(error) => Err(
            PoolErrorView::Backend(
                "failed to create tap interface '"@ + name + "': "@ + error,
            ),
        ),
        _ => match bridge {
            Some(b) => Ok(TapStepView::Attach(attach_args(name, b))),
            None => Ok(TapStepView::Ready),
        },
    }
}

/// Decides what comes after the attempt to create a device.
pub fn ensure_tap_device(name: &str, bridge: Option<&str>, created: Result<(), String>) -> (r:
    Result<TapStep, PoolError>)
    ensures
        match r {
            Ok(step) => tap_step(name@, opt_str(bridge), attempt(created)) == Ok::<
                TapStepView,
                PoolErrorView,
            >(step@),
            Err(e) => tap_step(name@, opt_str(bridge), attempt(created)) == Err::<
                TapStepView,
                PoolErrorView,
            >(e@),
        },
{
    if let Err(error) = &created {
        if !is_tap_exists_error(error.as_str()) {
            let mut message = "failed to create tap interface '".to_owned();
            message.append(name);
            message.append("': ");
            message.append(error.as_str());
            return Err(PoolError::Backend(message));
        }
    }
    match bridge {
        Some(b) => {
            let mut args: Vec<String> = Vec::new();
            args.push("link".to_owned());
            args.push("set".to_owned());
            args.push("dev".to_owned());
            args.push(name.to_owned());
            args.push("master".to_owned());
            args.push(b.to_owned());
            proof {
                assert(texts(args@) =~= attach_args(name@, b@));
            }
            Ok(TapStep::Attach(args))
        },
        None => Ok(TapStep::Ready),
    }
}

/// What a finished command left behind.
#[derive(Debug)]
pub struct CommandOutput {
    pub success: bool,
    /// The exit status, as it is shown to people.
    pub status: String,
    pub stderr: Vec<u8>,
}

/// "failed to attach tap interface 'NAME' to bridge 'BRIDGE': DETAIL".
pub open spec fn attach_failure(name: Seq<char>, bridge: Seq<char>, detail: Seq<char>) -> Seq<char> {
    "failed to attach tap interface '"@ + name + "' to bridge '"@ + bridge + "': "@ + detail
}

/// Why a command failed: what it said, or its exit status where it said nothing.
pub open spec fn failure_detail(said: Seq<char>, status: Seq<char>) -> Seq<char> {
    if trimmed(said).len() == 0 {
        "ip link exited with status "@ + status
    } else {
        trimmed(said)
    }
}

fn attach_error(name: &str, bridge: &str, detail: &str) -> (r: PoolError)
    ensures
        r@ == PoolErrorView::Backend(attach_failure(name@, bridge@, detail@)),
{
    let mut message = "failed to attach tap interface '".to_owned();
    message.append(name);
    message.append("' to bridge '");
    message.append(bridge);
    message.append("': ");
    message.append(detail);
    PoolError::Backend(message)
}

/// The error of a command that failed and said this.
pub fn refused_attachment(name: &str, bridge: &str, said: &str, status: &str) -> (r: PoolError)
    ensures
        r@ == PoolErrorView::Backend(
            attach_failure(name@, bridge@, failure_detail(said@, status@)),
        ),
{
    let stderr = trim(said);
    if stderr.as_str().is_empty() {
        let mut detail = "ip link exited with status ".to_owned();
        detail.append(status);
        attach_error(name, bridge, detail.as_str())
    } else {
        attach_error(name, bridge, stderr.as_str())
    }
}

/// What the attempt to put a device on a bridge comes to.
pub open spec fn attached(
    name: Seq<char>,
    bridge: Seq<char>,
    ran: Result<CommandOutput, String>,
) -> Result<(), PoolErrorView> {
    match ran {
        Err(error) => Err(PoolErrorView::Backend(attach_failure(name, bridge, error@))),
        Ok(output) => if output.success {
            Ok(())
        } else {
            Err(
                PoolErrorView::Backend(
                    attach_failure(
                        name,
                        bridge,
                        failure_detail(lossy_text(output.stderr@), output.status@),
                    ),
                ),
            )
        },
    }
}

/// Takes what came of running `ip` to put a device on a bridge.
pub fn attach_tap_to_bridge(name: &str, bridge: &str, ran: Result<CommandOutput, String>) -> (r:
    Result<(), PoolError>)
    ensures
        outcome(r) == attached(name@, bridge@, ran),
{
    match ran {
        Err(error) => Err(attach_error(name, bridge, error.as_str())),
        Ok(output) => {
            if output.success {
                return Ok(());
            }
            let said = from_utf8_lossy(&output.stderr);
            Err(refused_attachment(name, bridge, said.as_str(), output.status.as_str()))
        },
    }
}

/// A device that was there before serves as well as a new one.
pub proof fn law_existing_device_will_do(
    name: Seq<char>,
    bridge: Option<Seq<char>>,
    error: Seq<char>,
)
    requires
        tap_exists(error),
    ensures
        tap_step(name, bridge, Err(error)) == tap_step(name, bridge, Ok(())),
        tap_step(name, bridge, Err(error)) is Ok,
{
}

} // verus!
