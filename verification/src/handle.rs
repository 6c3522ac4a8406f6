//! Capture sessions: what each native call on a session is handed, what its
//! outcome means, and who closes the session's descriptor.

use vstd::prelude::*;
use crate::error::{bytes_of, errbuf_bytes, is_error, ErrBuf, Error};

verus! {

/// What a status means on an open session: zero is success, anything else
/// an error that carries the status and the session's last message.
pub open spec fn status_ok(r: Result<(), Error>, status: i32, last: Option<&[u8]>) -> bool {
    if status == 0 {
        r is Ok
    } else {
        r is Err && is_error(r->Err_0@, status as int, bytes_of(last))
    }
}

/// The number that a native call takes for a truth value.
pub open spec fn c_bool(flag: bool) -> i32 {
    if flag {
        1
    } else {
        0
    }
}

/// The signed number with the same 32 bits as `value`.
pub open spec fn c_int(value: u32) -> int {
    if value <= i32::MAX {
        value as int
    } else {
        value - 0x1_0000_0000
    }
}

/// The argument that stands for `flag` in a native call: one for true, zero
/// for false.
pub fn flag_arg(flag: bool) -> (r: i32)
    ensures
        r == c_bool(flag),
{
    if flag {
        1
    } else {
        0
    }
}

/// The argument that stands for a snapshot length in a native call: the
/// signed number with the same bits.
pub fn snaplen_arg(snaplen: u32) -> (r: i32)
    ensures
        r == c_int(snaplen),
{
    if snaplen <= 0x7fff_ffff {
        snaplen as i32
    } else {
        (snaplen as i64 - 0x1_0000_0000) as i32
    }
}

/// How far a session has come. A closed session has no handle any more, so
/// it needs no state of its own.
#[derive(Clone, Copy, Debug, PartialEq, Eq, Structural)]
pub enum State {
    /// Created and not activated yet: this is when it is configured.
    Created,
    /// Activated: the capture loop may run.
    Activated,
}

/// An open capture session: its native descriptor, as an address that is
/// known not to be null, and how far the session has come.
#[derive(Debug)]
pub struct Handle {
    handle: usize,
    state: State,
}

/// A token that can ask a running capture loop to stop. It names the
/// session's descriptor and never closes it.
#[derive(Debug)]
pub struct LoopBreaker {
    handle: usize,
}

impl LoopBreaker {
    /// The address of the descriptor whose loop this token stops.
    pub closed spec fn spec_descriptor(&self) -> usize {
        self.handle
    }

    /// The address of the descriptor whose loop this token stops.
    #[verifier::when_used_as_spec(spec_descriptor)]
    pub fn descriptor(&self) -> (r: usize)
        ensures
            r == self.spec_descriptor(),
    {
        self.handle
    }

    /// Another token for the same session. It takes a share of its own in
    /// `lifetime`, the companion that this token has a share in.
    pub fn share(&self, lifetime: &mut HandleLifetime) -> (r: LoopBreaker)
        requires
            0 < old(lifetime).holders() < u64::MAX,
        ensures
            r.spec_descriptor() == self.spec_descriptor(),
            final(lifetime).holders() == old(lifetime).holders() + 1,
    {
        lifetime.share();
        LoopBreaker { handle: self.handle }
    }
}

impl Handle {
    #[verifier::type_invariant]
    spec fn not_null(self) -> bool {
        self.handle != 0
    }

    /// The address of the session's descriptor.
    pub closed spec fn spec_descriptor(&self) -> usize {
        self.handle
    }

    /// How far the session has come, as far as the calls settled on this
    /// handle show.
    pub closed spec fn spec_state(&self) -> State {
        self.state
    }

    /// The session behind a descriptor that is not null, created and not
    /// activated yet.
    pub fn new(handle: usize) -> (r: Handle)
        requires
            handle != 0,
        ensures
            r.spec_descriptor() == handle,
            r.spec_state() == State::Created,
    {
        Handle { handle, state: State::Created }
    }

    /// How far the session has come.
    #[verifier::when_used_as_spec(spec_state)]
    pub fn state(&self) -> (r: State)
        ensures
            r == self.spec_state(),
    {
        self.state
    }

    /// The address of the session's descriptor; never null.
    #[verifier::when_used_as_spec(spec_descriptor)]
    pub fn descriptor(&self) -> (r: usize)
        ensures
            r == self.spec_descriptor(),
            r != 0,
    {
        proof {
            use_type_invariant(self);
        }
        self.handle
    }

    /// Turns the status of a native call on this session into a result.
    /// `last` is what the session's last-error accessor gave.
    pub fn chkerr(&self, code: i32, last: Option<&[u8]>) -> (r: Result<(), Error>)
        ensures
            status_ok(r, code, last),
    {
        Error::check(last, code)
    }

    /// A token for stopping this session's loop from elsewhere. It takes a
    /// share in `lifetime`, the companion that decides when the descriptor
    /// is closed.
    pub fn loop_breaker(&self, lifetime: &mut HandleLifetime) -> (r: LoopBreaker)
        requires
            0 < old(lifetime).holders() < u64::MAX,
        ensures
            r.spec_descriptor() == self.spec_descriptor(),
            final(lifetime).holders() == old(lifetime).holders() + 1,
    {
        lifetime.share();
        LoopBreaker { handle: self.handle }
    }

    /// Settles a compilation of a filter. Status zero gives the compiled
    /// program, which is not installed; any other status is the session's
    /// error.
    pub fn compile<P>(&self, status: i32, last: Option<&[u8]>, program: P) -> (r: Result<P, Error>)
        ensures
            status == 0 ==> r == Ok::<P, Error>(program),
            status != 0 ==> r is Err && is_error(r->Err_0@, status as int, bytes_of(last)),
    {
        match self.chkerr(status, last) {
            Ok(_) => Ok(program),
            Err(e) => Err(e),
        }
    }

    /// Settles the installation of a compiled filter.
    pub fn set_filter(&self, status: i32, last: Option<&[u8]>) -> (r: Result<(), Error>)
        ensures
            status_ok(r, status, last),
    {
        self.chkerr(status, last)
    }

    /// Settles a switch of the blocking mode. This call reports through the
    /// error buffer: any status but zero is an error with that status as
    /// its code and the message of the buffer.
    pub fn set_nonblock(&mut self, status: i32, err_buf: ErrBuf) -> (r: Result<(), Error>)
        ensures
            *final(self) == *old(self),
            status == 0 ==> r is Ok,
            status != 0 ==> r is Err && is_error(
                r->Err_0@,
                status as int,
                errbuf_bytes(err_buf@),
            ),
    {
        if status != 0 {
            Err(Error::new(err_buf, status))
        } else {
            Ok(())
        }
    }

    /// Settles a change of the snapshot length.
    pub fn set_snaplen(&mut self, status: i32, last: Option<&[u8]>) -> (r: Result<(), Error>)
        ensures
            *final(self) == *old(self),
            status_ok(r, status, last),
    {
        self.chkerr(status, last)
    }

    /// Settles a change of the promiscuous mode.
    pub fn set_promisc(&mut self, status: i32, last: Option<&[u8]>) -> (r: Result<(), Error>)
        ensures
            *final(self) == *old(self),
            status_ok(r, status, last),
    {
        self.chkerr(status, last)
    }

    /// Settles the activation of the session. Status zero makes the
    /// session an activated one; any other status is the session's error
    /// and leaves the handle as it was.
    pub fn activate(&mut self, status: i32, last: Option<&[u8]>) -> (r: Result<(), Error>)
        ensures
            status_ok(r, status, last),
            final(self).spec_descriptor() == old(self).spec_descriptor(),
            final(self).spec_state() == if status == 0 {
                State::Activated
            } else {
                old(self).spec_state()
            },
    {
        proof {
            use_type_invariant(&*self);
        }
        let r = self.chkerr(status, last);
        if status == 0 {
            self.state = State::Activated;
        }
        r
    }
}

/// Settles the creation of a session. `handle` is the address of the
/// descriptor that the engine returned and `err_buf` the error buffer it
/// was handed. A descriptor that is not null gives a session that is
/// created and not activated yet; a null descriptor is an error with code 1
/// and the message of the buffer.
pub fn create(handle: usize, err_buf: ErrBuf) -> (r: Result<Handle, Error>)
    ensures
        handle != 0 ==> r is Ok && r->Ok_0.spec_descriptor() == handle && r->Ok_0.spec_state()
            == State::Created,
        handle == 0 ==> r is Err && is_error(r->Err_0@, 1, errbuf_bytes(err_buf@)),
{
    if handle == 0 {
        Err(Error::new(err_buf, 1))
    } else {
        Ok(Handle::new(handle))
    }
}

/// Settles the opening of a live session, which creates, configures and
/// activates in one native call. A descriptor that is not null gives a
/// session that is activated already; a null descriptor is an error with
/// code 0 and the message of the buffer.
pub fn open_live(handle: usize, err_buf: ErrBuf) -> (r: Result<Handle, Error>)
    ensures
        handle != 0 ==> r is Ok && r->Ok_0.spec_descriptor() == handle && r->Ok_0.spec_state()
            == State::Activated,
        handle == 0 ==> r is Err && is_error(r->Err_0@, 0, errbuf_bytes(err_buf@)),
{
    if handle == 0 {
        Err(Error::new(err_buf, 0))
    } else {
        Ok(Handle { handle, state: State::Activated })
    }
}

/// The companion that a handle shares with the loop breakers taken from
/// it. It counts who still holds the session's descriptor, and says when
/// the descriptor is to be closed: when the last holder lets go, and then
/// only.
#[derive(Debug)]
pub struct HandleLifetime {
    holders: u64,
}

impl HandleLifetime {
    /// How many values hold the descriptor: the handle, while it lives, and
    /// each loop breaker.
    pub closed spec fn holders(&self) -> nat {
        self.holders as nat
    }

    /// The companion of a fresh handle, which is its only holder.
    pub fn new() -> (r: HandleLifetime)
        ensures
            r.holders() == 1,
    {
        HandleLifetime { holders: 1 }
    }

    /// Whether another holder can be counted in: the descriptor is still
    /// held, and the count has room.
    pub fn can_share(&self) -> (r: bool)
        ensures
            r == (0 < self.holders() < u64::MAX),
    {
        0 < self.holders && self.holders < u64::MAX
    }

    /// Counts one more holder in.
    pub fn share(&mut self)
        requires
            0 < old(self).holders() < u64::MAX,
        ensures
            final(self).holders() == old(self).holders() + 1,
    {
        self.holders = self.holders + 1;
    }

    /// Counts one holder out. Returns whether the descriptor is to be
    /// closed now: true for the last holder, false for every other and for
    /// a release that finds no holder left.
    pub fn release(&mut self) -> (close: bool)
        ensures
            close == (old(self).holders() == 1),
            final(self).holders() == released(old(self).holders()),
    {
        if self.holders == 0 {
            false
        } else {
            self.holders = self.holders - 1;
            self.holders == 0
        }
    }
}

/// The count of holders after one release.
pub open spec fn released(holders: nat) -> nat {
    if holders == 0 {
        0
    } else {
        (holders - 1) as nat
    }
}

/// How many of the first `releases` releases, starting from `holders`
/// holders, say that the descriptor is to be closed.
pub open spec fn closes(holders: nat, releases: nat) -> nat
    decreases releases,
{
    if releases == 0 {
        0
    } else if holders == 1 {
        1 + closes(0, (releases - 1) as nat)
    } else {
        closes(released(holders), (releases - 1) as nat)
    }
}

/// The descriptor is closed once and only once, by the release of its last
/// holder: of any run of releases, none asks for the close before every
/// holder has let go, and exactly one does from then on.
pub proof fn lemma_closed_exactly_once(holders: nat, releases: nat)
    ensures
        closes(holders, releases) == if 0 < holders <= releases {
            1nat
        } else {
            0nat
        },
    decreases releases,
{
    if releases > 0 {
        lemma_closed_exactly_once(released(holders), (releases - 1) as nat);
    }
}

} // verus!
