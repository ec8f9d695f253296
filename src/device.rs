//! The lifecycle of an IO callback registration on a device, and the rules
//! of the trampoline the hardware calls on every audio cycle.
//!
//! The registration is a state machine: [`AudioIoProcHandler::start`] and
//! [`AudioIoProcHandler::stop`] name the host call to perform next, if any,
//! and [`AudioIoProcHandler::complete`] takes the status that call returned
//! and names the call after it.

use vstd::prelude::*;

use crate::error::{check_status, is_hardware_error, AudioError, ErrorKind};
use crate::property::ObjectId;
use crate::status::{OSStatus, K_AUDIO_HARDWARE_NO_ERROR, K_AUDIO_HARDWARE_UNSPECIFIED_ERROR};

verus! {

pub const CREATE_IO_PROC_FAIL: &'static str = "core audio create io proc fail";
pub const START_IO_PROC_FAIL: &'static str = "core audio start io proc fail";
pub const STOP_IO_PROC_FAIL: &'static str = "core audio stop io proc fail";
pub const DESTROY_IO_PROC_FAIL: &'static str = "core audio destroy io proc fail";
pub const IO_PROC_CALL_OUT_OF_ORDER: &'static str = "io proc call reported out of order";

/// A call of the host API on the registration's device.
#[derive(Debug, Clone, Copy, PartialEq, Eq, Structural)]
pub enum IoProcCall {
    /// Register the trampoline with the device, obtaining a callback id.
    CreateIoProcId,
    /// Begin delivering audio cycles to the callback.
    Start,
    /// Halt delivery; the callback id stays registered.
    Stop,
    /// Deregister the callback id.
    DestroyIoProcId,
}

/// A binding between a device and a processing routine: whether a callback
/// id was obtained, and whether delivery is running.
#[derive(Debug)]
pub struct AudioIoProcHandler {
    audio_device_id: ObjectId,
    registered: bool,
    is_run: bool,
}

/// What a registration holds.
pub struct IoProcView {
    pub device: ObjectId,
    pub registered: bool,
    pub running: bool,
}

impl View for AudioIoProcHandler {
    type V = IoProcView;

    closed spec fn view(&self) -> IoProcView {
        IoProcView { device: self.audio_device_id, registered: self.registered, running: self.is_run }
    }
}

/// Delivery only runs through a registered callback id.
pub open spec fn io_proc_wf(v: IoProcView) -> bool {
    v.running ==> v.registered
}

/// The call that starting needs next: none if already running, else a
/// registration first if no callback id exists yet.
pub open spec fn start_call(v: IoProcView) -> Option<IoProcCall> {
    if v.running {
        None
    } else if !v.registered {
        Some(IoProcCall::CreateIoProcId)
    } else {
        Some(IoProcCall::Start)
    }
}

/// The call that stopping needs: none if not running.
pub open spec fn stop_call(v: IoProcView) -> Option<IoProcCall> {
    if v.running {
        Some(IoProcCall::Stop)
    } else {
        None
    }
}

/// Whether the outcome of `call` can be reported in state `v`. Deregistering
/// belongs to teardown alone, which ends the registration.
pub open spec fn call_expected(v: IoProcView, call: IoProcCall) -> bool {
    match call {
        IoProcCall::CreateIoProcId => !v.registered && !v.running,
        IoProcCall::Start => v.registered && !v.running,
        IoProcCall::Stop => v.running,
        IoProcCall::DestroyIoProcId => false,
    }
}

/// The state after `call` succeeded.
pub open spec fn state_after(v: IoProcView, call: IoProcCall) -> IoProcView {
    match call {
        IoProcCall::CreateIoProcId => IoProcView { registered: true, ..v },
        IoProcCall::Start => IoProcView { running: true, ..v },
        IoProcCall::Stop => IoProcView { running: false, ..v },
        IoProcCall::DestroyIoProcId => IoProcView { registered: false, ..v },
    }
}

/// The call that follows a successful `call`: a fresh registration goes on
/// to start delivery.
pub open spec fn call_after(call: IoProcCall) -> Option<IoProcCall> {
    match call {
        IoProcCall::CreateIoProcId => Some(IoProcCall::Start),
        _ => None,
    }
}

/// What a failure of `call` reports.
pub open spec fn call_fail_message(call: IoProcCall) -> Seq<char> {
    match call {
        IoProcCall::CreateIoProcId => CREATE_IO_PROC_FAIL@,
        IoProcCall::Start => START_IO_PROC_FAIL@,
        IoProcCall::Stop => STOP_IO_PROC_FAIL@,
        IoProcCall::DestroyIoProcId => DESTROY_IO_PROC_FAIL@,
    }
}

/// The calls that tear a registration down: stop delivery if it runs, then
/// deregister the callback id if one was obtained.
pub open spec fn teardown_sequence(v: IoProcView) -> Seq<IoProcCall> {
    (if v.running {
        seq![IoProcCall::Stop]
    } else {
        Seq::empty()
    }) + (if v.registered {
        seq![IoProcCall::DestroyIoProcId]
    } else {
        Seq::empty()
    })
}

/// What a failure of `call` reports.
pub fn fail_message(call: IoProcCall) -> (r: &'static str)
    ensures
        r@ == call_fail_message(call),
{
    match call {
        IoProcCall::CreateIoProcId => CREATE_IO_PROC_FAIL,
        IoProcCall::Start => START_IO_PROC_FAIL,
        IoProcCall::Stop => STOP_IO_PROC_FAIL,
        IoProcCall::DestroyIoProcId => DESTROY_IO_PROC_FAIL,
    }
}

impl AudioIoProcHandler {
    /// An idle registration on a device: no callback id, not running.
    pub fn new(audio_device_id: ObjectId) -> (r: AudioIoProcHandler)
        ensures
            r@ == (IoProcView { device: audio_device_id, registered: false, running: false }),
    {
        AudioIoProcHandler { audio_device_id, registered: false, is_run: false }
    }

    /// The device the routine is bound to.
    pub fn device_id(&self) -> (r: ObjectId)
        ensures
            r == self@.device,
    {
        self.audio_device_id
    }

    /// Whether a callback id was obtained.
    pub fn has_io_proc_id(&self) -> (r: bool)
        ensures
            r == self@.registered,
    {
        self.registered
    }

    /// Whether delivery is running.
    pub fn is_running(&self) -> (r: bool)
        ensures
            r == self@.running,
    {
        self.is_run
    }

    /// The first call that starting needs; none when delivery already runs,
    /// which makes a repeated start a successful no-op.
    pub fn start(&self) -> (r: Option<IoProcCall>)
        ensures
            r == start_call(self@),
    {
        if self.is_run {
            None
        } else if !self.registered {
            Some(IoProcCall::CreateIoProcId)
        } else {
            Some(IoProcCall::Start)
        }
    }

    /// The call that stopping needs; none when delivery is not running,
    /// which makes a repeated stop a successful no-op.
    pub fn stop(&self) -> (r: Option<IoProcCall>)
        ensures
            r == stop_call(self@),
    {
        if self.is_run {
            Some(IoProcCall::Stop)
        } else {
            None
        }
    }

    /// Takes the `status` that `call` returned and gives the call to perform
    /// next, if any. A failed call leaves the state as it was; a call that
    /// the state did not ask for is rejected as misuse.
    pub fn complete(&mut self, call: IoProcCall, status: OSStatus) -> (r: Result<
        Option<IoProcCall>,
        AudioError,
    >)
        ensures
            r is Ok <==> call_expected(old(self)@, call) && status == K_AUDIO_HARDWARE_NO_ERROR,
            r is Ok ==> final(self)@ == state_after(old(self)@, call) && r->Ok_0 == call_after(call),
            r is Err ==> final(self)@ == old(self)@,
            !call_expected(old(self)@, call) ==> r->Err_0.kind == ErrorKind::Misuse,
            call_expected(old(self)@, call) && status != K_AUDIO_HARDWARE_NO_ERROR
                ==> is_hardware_error(r->Err_0, call_fail_message(call), status),
            io_proc_wf(old(self)@) ==> io_proc_wf(final(self)@),
    {
        let expected = match call {
            IoProcCall::CreateIoProcId => !self.registered && !self.is_run,
            IoProcCall::Start => self.registered && !self.is_run,
            IoProcCall::Stop => self.is_run,
            IoProcCall::DestroyIoProcId => false,
        };
        if !expected {
            return Err(AudioError::with_msg(ErrorKind::Misuse, IO_PROC_CALL_OUT_OF_ORDER));
        }
        if let Err(e) = check_status(fail_message(call), status) {
            return Err(e);
        }
        match call {
            IoProcCall::CreateIoProcId => {
                self.registered = true;
                Ok(Some(IoProcCall::Start))
            },
            IoProcCall::Start => {
                self.is_run = true;
                Ok(None)
            },
            IoProcCall::Stop => {
                self.is_run = false;
                Ok(None)
            },
            IoProcCall::DestroyIoProcId => {
                self.registered = false;
                Ok(None)
            },
        }
    }

    /// Ends the registration; gives the calls that tear it down, in order.
    pub fn teardown(self) -> (r: Vec<IoProcCall>)
        ensures
            r@ == teardown_sequence(self@),
    {
        let mut calls: Vec<IoProcCall> = Vec::new();
        if self.is_run {
            calls.push(IoProcCall::Stop);
        }
        if self.registered {
            calls.push(IoProcCall::DestroyIoProcId);
        }
        assert(calls@ =~= teardown_sequence(self@));
        calls
    }
}

/// Once a start has gone through, starting again asks for no call; once a
/// stop has gone through, stopping again asks for none either.
pub proof fn lemma_start_stop_idempotent(v: IoProcView)
    ensures
        call_expected(v, IoProcCall::Start) ==> start_call(state_after(v, IoProcCall::Start)) is None,
        call_expected(v, IoProcCall::Stop) ==> stop_call(state_after(v, IoProcCall::Stop)) is None,
        v.running ==> start_call(v) is None,
        !v.running ==> stop_call(v) is None,
{
}

/// The status the trampoline hands back to the hardware: an unspecified
/// error when the routine's context is missing or the routine faulted,
/// otherwise the routine's own status.
pub fn trampoline_status(has_context: bool, outcome: Option<OSStatus>) -> (r: OSStatus)
    ensures
        r == (if !has_context || outcome is None {
            K_AUDIO_HARDWARE_UNSPECIFIED_ERROR
        } else {
            outcome->Some_0
        }),
{
    if !has_context {
        return K_AUDIO_HARDWARE_UNSPECIFIED_ERROR;
    }
    match outcome {
        Some(status) => status,
        None => K_AUDIO_HARDWARE_UNSPECIFIED_ERROR,
    }
}

} // verus!
