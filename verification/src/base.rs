//! The bus that carries commands, register and buffer accesses to the chip,
//! and the words in which the driver's contracts speak of what went over it.

use core::marker::PhantomData;
use vstd::prelude::*;

use crate::Error;

verus! {

/// One request put to the bus.
pub enum Request {
    /// Pulse the reset line of the chip
    Reset,
    /// Wait for a number of milliseconds
    Delay(u32),
    /// Send a command with its parameters
    WriteCmd(u8, Seq<u8>),
    /// Send a command and read a number of bytes of reply
    ReadCmd(u8, nat),
    /// Write consecutive registers, starting at an address
    WriteRegs(u16, Seq<u8>),
    /// Read a number of consecutive registers, starting at an address
    ReadRegs(u16, nat),
    /// Write to the data buffer, starting at an offset
    WriteBuff(u8, Seq<u8>),
    /// Read a number of bytes of the data buffer, starting at an offset
    ReadBuff(u8, nat),
}

/// One request with the answer it got: the bytes read (none for a request
/// that reads nothing), or the error that the bus gave.
pub struct Exchange<CommsError, PinError> {
    pub request: Request,
    pub reply: Result<Seq<u8>, Error<CommsError, PinError>>,
}

/// The answer to a request that reads nothing.
pub open spec fn done<C, P>(r: Result<(), Error<C, P>>) -> Result<Seq<u8>, Error<C, P>> {
    match r {
        Ok(()) => Ok(Seq::empty()),
        Err(e) => Err(e),
    }
}

/// The answer to a request that read `data`.
pub open spec fn read<C, P>(r: Result<(), Error<C, P>>, data: Seq<u8>) -> Result<
    Seq<u8>,
    Error<C, P>,
> {
    match r {
        Ok(()) => Ok(data),
        Err(e) => Err(e),
    }
}

/// The answer to a request that read one byte.
pub open spec fn read_byte<C, P>(r: Result<u8, Error<C, P>>) -> Result<Seq<u8>, Error<C, P>> {
    match r {
        Ok(value) => Ok(seq![value]),
        Err(e) => Err(e),
    }
}

/// Access to the chip. Each method is one complete exchange, gated by the
/// chip's busy signal: it returns once the chip has answered or the exchange
/// has failed. A read fills the whole of `data`.
///
/// Nothing is asked of an implementation but what Rust holds it to anyway:
/// the one clause of the reads says that a slice keeps its length.
pub trait Hal<CommsError, PinError> {
    /// Resets the chip.
    fn reset(&mut self) -> Result<(), Error<CommsError, PinError>>;

    /// Waits for `ms` milliseconds.
    fn delay_ms(&mut self, ms: u32);

    /// Sends `command` with the parameters `data`.
    fn write_cmd(&mut self, command: u8, data: &[u8]) -> Result<(), Error<CommsError, PinError>>;

    /// Sends `command` and fills `data` with the reply.
    fn read_cmd(&mut self, command: u8, data: &mut [u8]) -> (r: Result<
        (),
        Error<CommsError, PinError>,
    >)
        ensures
            final(data)@.len() == old(data)@.len(),
    ;

    /// Writes `data` to the registers from `reg` on.
    fn write_regs(&mut self, reg: u16, data: &[u8]) -> Result<(), Error<CommsError, PinError>>;

    /// Fills `data` from the registers from `reg` on.
    fn read_regs(&mut self, reg: u16, data: &mut [u8]) -> (r: Result<
        (),
        Error<CommsError, PinError>,
    >)
        ensures
            final(data)@.len() == old(data)@.len(),
    ;

    /// Writes `data` to the data buffer from `offset` on.
    fn write_buff(&mut self, offset: u8, data: &[u8]) -> Result<(), Error<CommsError, PinError>>;

    /// Fills `data` from the data buffer from `offset` on.
    fn read_buff(&mut self, offset: u8, data: &mut [u8]) -> (r: Result<
        (),
        Error<CommsError, PinError>,
    >)
        ensures
            final(data)@.len() == old(data)@.len(),
    ;
}

/// A bus together with the record of every exchange made on it, oldest
/// first, whether the bus carried it out or failed it. The record is kept
/// for the sake of contracts only. Nothing but the methods of this type
/// reaches the bus or the record, and each of them makes the one call that
/// it records: who holds a bus in this type cannot add to the record but by
/// asking the bus.
pub struct Recorder<Base, CommsError, PinError> {
    hal: Base,
    history: Ghost<Seq<Exchange<CommsError, PinError>>>,
    _ce: PhantomData<CommsError>,
    _pe: PhantomData<PinError>,
}

impl<Base, CommsError, PinError> Recorder<Base, CommsError, PinError> where
    Base: Hal<CommsError, PinError>,
 {
    /// Every exchange made so far, oldest first.
    pub closed spec fn history(&self) -> Seq<Exchange<CommsError, PinError>> {
        self.history@
    }

    /// The bus.
    pub closed spec fn bus(&self) -> Base {
        self.hal
    }

    /// Takes `hal` with nothing on record.
    pub(crate) fn new(hal: Base) -> (line: Self)
        ensures
            line.bus() == hal,
            line.history() == Seq::<Exchange<CommsError, PinError>>::empty(),
    {
        Recorder { hal, history: Ghost(Seq::empty()), _ce: PhantomData, _pe: PhantomData }
    }

    /// The bus.
    pub(crate) fn hal(&self) -> (hal: &Base)
        ensures
            *hal == self.bus(),
    {
        &self.hal
    }

    /// One exchange: waits for `ms` milliseconds.
    pub(crate) fn delay_ms(&mut self, ms: u32)
        ensures
            final(self).history() == old(self).history().push(
                Exchange { request: Request::Delay(ms), reply: Ok(Seq::empty()) },
            ),
    {
        self.hal.delay_ms(ms);
        self.history = Ghost(
            self.history@.push(Exchange { request: Request::Delay(ms), reply: Ok(Seq::empty()) }),
        );
    }

    /// One exchange: resets the chip.
    pub(crate) fn reset(&mut self) -> (r: Result<(), Error<CommsError, PinError>>)
        ensures
            final(self).history() == old(self).history().push(
                Exchange { request: Request::Reset, reply: done(r) },
            ),
    {
        let r = self.hal.reset();
        self.history = Ghost(self.history@.push(Exchange { request: Request::Reset, reply: done(r) }));
        r
    }

    /// One exchange: sends `command` with the parameters `data`.
    pub(crate) fn write_cmd(&mut self, command: u8, data: &[u8]) -> (r: Result<
        (),
        Error<CommsError, PinError>,
    >)
        ensures
            final(self).history() == old(self).history().push(
                Exchange { request: Request::WriteCmd(command, data@), reply: done(r) },
            ),
    {
        let r = self.hal.write_cmd(command, data);
        self.history = Ghost(
            self.history@.push(
                Exchange { request: Request::WriteCmd(command, data@), reply: done(r) },
            ),
        );
        r
    }

    /// One exchange: sends `command` and fills `data` with the reply.
    pub(crate) fn read_cmd(&mut self, command: u8, data: &mut [u8]) -> (r: Result<
        (),
        Error<CommsError, PinError>,
    >)
        ensures
            final(data)@.len() == old(data)@.len(),
            final(self).history() == old(self).history().push(
                Exchange {
                    request: Request::ReadCmd(command, old(data)@.len()),
                    reply: read(r, final(data)@),
                },
            ),
    {
        let ghost len = data@.len();
        let r = self.hal.read_cmd(command, data);
        self.history = Ghost(
            self.history@.push(
                Exchange { request: Request::ReadCmd(command, len), reply: read(r, data@) },
            ),
        );
        r
    }

    /// One exchange: writes `data` to the registers from `reg` on.
    pub(crate) fn write_regs(&mut self, reg: u16, data: &[u8]) -> (r: Result<
        (),
        Error<CommsError, PinError>,
    >)
        ensures
            final(self).history() == old(self).history().push(
                Exchange { request: Request::WriteRegs(reg, data@), reply: done(r) },
            ),
    {
        let r = self.hal.write_regs(reg, data);
        self.history = Ghost(
            self.history@.push(Exchange { request: Request::WriteRegs(reg, data@), reply: done(r) }),
        );
        r
    }

    /// One exchange: fills `data` from the registers from `reg` on.
    pub(crate) fn read_regs(&mut self, reg: u16, data: &mut [u8]) -> (r: Result<
        (),
        Error<CommsError, PinError>,
    >)
        ensures
            final(data)@.len() == old(data)@.len(),
            final(self).history() == old(self).history().push(
                Exchange {
                    request: Request::ReadRegs(reg, old(data)@.len()),
                    reply: read(r, final(data)@),
                },
            ),
    {
        let ghost len = data@.len();
        let r = self.hal.read_regs(reg, data);
        self.history = Ghost(
            self.history@.push(
                Exchange { request: Request::ReadRegs(reg, len), reply: read(r, data@) },
            ),
        );
        r
    }

    /// One exchange: writes one register.
    pub(crate) fn write_reg(&mut self, reg: u16, value: u8) -> (r: Result<
        (),
        Error<CommsError, PinError>,
    >)
        ensures
            final(self).history() == old(self).history().push(
                Exchange { request: Request::WriteRegs(reg, seq![value]), reply: done(r) },
            ),
    {
        let data: [u8; 1] = [value];
        assert(data@ =~= seq![value]);
        self.write_regs(reg, &data)
    }

    /// One exchange: reads one register.
    pub(crate) fn read_reg(&mut self, reg: u16) -> (r: Result<u8, Error<CommsError, PinError>>)
        ensures
            final(self).history() == old(self).history().push(
                Exchange { request: Request::ReadRegs(reg, 1), reply: read_byte(r) },
            ),
    {
        let mut data: [u8; 1] = [0u8];
        match self.read_regs(reg, &mut data) {
            Ok(()) => {
                assert(data@ =~= seq![data@[0]]);
                Ok(data[0])
            },
            Err(e) => Err(e),
        }
    }

    /// One exchange: writes `data` to the data buffer from `offset` on.
    pub(crate) fn write_buff(&mut self, offset: u8, data: &[u8]) -> (r: Result<
        (),
        Error<CommsError, PinError>,
    >)
        ensures
            final(self).history() == old(self).history().push(
                Exchange { request: Request::WriteBuff(offset, data@), reply: done(r) },
            ),
    {
        let r = self.hal.write_buff(offset, data);
        self.history = Ghost(
            self.history@.push(
                Exchange { request: Request::WriteBuff(offset, data@), reply: done(r) },
            ),
        );
        r
    }

    /// One exchange: fills `data` from the data buffer from `offset` on.
    pub(crate) fn read_buff(&mut self, offset: u8, data: &mut [u8]) -> (r: Result<
        (),
        Error<CommsError, PinError>,
    >)
        ensures
            final(data)@.len() == old(data)@.len(),
            final(self).history() == old(self).history().push(
                Exchange {
                    request: Request::ReadBuff(offset, old(data)@.len()),
                    reply: read(r, final(data)@),
                },
            ),
    {
        let ghost len = data@.len();
        let r = self.hal.read_buff(offset, data);
        self.history = Ghost(
            self.history@.push(
                Exchange { request: Request::ReadBuff(offset, len), reply: read(r, data@) },
            ),
        );
        r
    }
}

/// The exchanges of `later` that came after those of `earlier`.
pub open spec fn since<C, P>(earlier: Seq<Exchange<C, P>>, later: Seq<Exchange<C, P>>) -> Seq<
    Exchange<C, P>,
> {
    later.skip(earlier.len() as int)
}

/// Exchange `i` of `said` was made and succeeded.
pub open spec fn acked<C, P>(said: Seq<Exchange<C, P>>, i: int) -> bool {
    0 <= i < said.len() && said[i].reply is Ok
}

/// The bytes that exchange `i` of `said` read.
pub open spec fn answer<C, P>(said: Seq<Exchange<C, P>>, i: int) -> Seq<u8> {
    said[i].reply->Ok_0
}

/// How many bytes a request asks the bus to read.
pub open spec fn asked_len(request: Request) -> nat {
    match request {
        Request::ReadCmd(_, len) => len,
        Request::ReadRegs(_, len) => len,
        Request::ReadBuff(_, len) => len,
        _ => 0,
    }
}

/// An exchange that the bus carried out was answered with as many bytes as
/// its request asked for: none for a request that reads nothing.
pub open spec fn answered<C, P>(exchange: Exchange<C, P>) -> bool {
    exchange.reply matches Ok(data) ==> data.len() == asked_len(exchange.request)
}

/// One step of what an operation asks of the bus.
pub enum Step {
    /// This request
    Ask(Request),
    /// Write to a register the byte that the step before read, with only
    /// the bits of a mask kept
    WriteBack(u16, u8),
}

/// The byte that the exchange before exchange `i` of `said` read first.
pub open spec fn byte_before<C, P>(said: Seq<Exchange<C, P>>, i: int) -> u8 {
    if i >= 1 {
        answer(said, i - 1)[0]
    } else {
        0
    }
}

/// The request that `step` comes to as exchange `i` of `said`.
pub open spec fn asked<C, P>(step: Step, said: Seq<Exchange<C, P>>, i: int) -> Request {
    match step {
        Step::Ask(request) => request,
        Step::WriteBack(reg, mask) => Request::WriteRegs(reg, seq![byte_before(said, i) & mask]),
    }
}

/// `said` takes the steps of `script` in order and stops at the first that
/// the bus fails: whatever was asked was asked in turn, nothing was asked
/// after a failure, and nothing is left out but what follows a failure.
/// Each exchange that the bus carried out was answered in the length asked.
#[verifier::opaque]
pub open spec fn follows<C, P>(said: Seq<Exchange<C, P>>, script: Seq<Step>) -> bool {
    &&& said.len() <= script.len()
    &&& forall|i: int|
        0 <= i < said.len() ==> said[i].request == #[trigger] asked(script[i], said, i)
    &&& forall|i: int| 0 <= i < said.len() - 1 ==> (#[trigger] said[i]).reply is Ok
    &&& forall|i: int| 0 <= i < said.len() ==> answered(#[trigger] said[i])
    &&& said.len() < script.len() ==> said.len() > 0 && said.last().reply is Err
}

/// The error of the bus that ended `said`, if one did.
pub open spec fn failure<C, P>(said: Seq<Exchange<C, P>>) -> Option<Error<C, P>> {
    if said.len() > 0 && said.last().reply is Err {
        Some(said.last().reply->Err_0)
    } else {
        None
    }
}

/// How many exchanges of `said` the bus carried out: all of them, or all but
/// the last where that one failed.
#[verifier::opaque]
pub open spec fn carried<C, P>(said: Seq<Exchange<C, P>>) -> int {
    if failure(said) is Some {
        said.len() - 1
    } else {
        said.len() as int
    }
}

/// What an operation returns after `said`: the error of the bus where it
/// failed, and else the operation's own `verdict`.
pub open spec fn outcome<T, C, P>(said: Seq<Exchange<C, P>>, verdict: Result<T, Error<C, P>>) -> Result<
    T,
    Error<C, P>,
> {
    match failure(said) {
        Some(e) => Err(e),
        None => verdict,
    }
}

/// Between the histories `before` and `after` the bus was asked what `script`
/// lists, as far as it did not fail, and `r` is what came of it: the error of
/// the bus where it failed, and else `verdict`.
pub open spec fn ran<T, C, P>(
    before: Seq<Exchange<C, P>>,
    after: Seq<Exchange<C, P>>,
    script: Seq<Step>,
    verdict: Result<T, Error<C, P>>,
    r: Result<T, Error<C, P>>,
) -> bool {
    &&& before.is_prefix_of(after)
    &&& follows(since(before, after), script)
    &&& r == outcome(since(before, after), verdict)
}

/// A script that can follow another: it does not start by writing back what
/// the script before it read.
pub open spec fn starts_plain(script: Seq<Step>) -> bool {
    script.len() > 0 ==> script[0] is Ask
}

/// How long a run that follows a script is: it has no more exchanges than
/// the script has steps, and as many unless the bus failed its last.
pub proof fn lemma_follows_len<C, P>(said: Seq<Exchange<C, P>>, script: Seq<Step>)
    requires
        follows(said, script),
    ensures
        said.len() <= script.len(),
        failure(said) is None ==> said.len() == script.len(),
        failure(said) is None ==> carried(said) == script.len(),
        failure(said) is Some ==> carried(said) == said.len() - 1,
{
    reveal(follows);
    reveal(carried);
}

/// What exchange `i` of a run that follows a script was: it asked what step
/// `i` comes to, it succeeded unless it is the last, and where it succeeded
/// it was answered in the length asked.
pub proof fn lemma_follows_at<C, P>(said: Seq<Exchange<C, P>>, script: Seq<Step>, i: int)
    requires
        follows(said, script),
        0 <= i < said.len(),
    ensures
        said[i].request == asked(script[i], said, i),
        i < carried(said) ==> said[i].reply is Ok,
        i < said.len() - 1 ==> said[i].reply is Ok,
        said[i].reply is Ok ==> answer(said, i).len() == asked_len(said[i].request),
{
    reveal(follows);
    reveal(carried);
}

/// Before an operation has asked anything it has followed the empty script.
pub proof fn lemma_start<C, P>(h0: Seq<Exchange<C, P>>)
    ensures
        h0.is_prefix_of(h0),
        since(h0, h0).len() == 0,
        follows(since(h0, h0), Seq::empty()),
        failure(since(h0, h0)) is None,
{
    reveal(follows);
}

/// Two runs, one after the other, make one run of the two scripts in a row,
/// where the first run came to the end of its script without a failure.
pub proof fn lemma_follows_then<C, P>(
    h0: Seq<Exchange<C, P>>,
    h1: Seq<Exchange<C, P>>,
    h2: Seq<Exchange<C, P>>,
    s1: Seq<Step>,
    s2: Seq<Step>,
)
    requires
        h0.is_prefix_of(h1),
        h1.is_prefix_of(h2),
        follows(since(h0, h1), s1),
        failure(since(h0, h1)) is None,
        follows(since(h1, h2), s2),
        starts_plain(s2),
    ensures
        h0.is_prefix_of(h2),
        since(h0, h1).len() == s1.len(),
        since(h0, h2) == since(h0, h1) + since(h1, h2),
        since(h0, h2).skip(s1.len() as int) == since(h1, h2),
        follows(since(h0, h2), s1 + s2),
        failure(since(h0, h2)) == failure(since(h1, h2)),
{
    reveal(follows);
    let a = since(h0, h1);
    let b = since(h1, h2);
    let all = since(h0, h2);
    assert(h0 =~= h2.subrange(0, h0.len() as int)) by {
        assert(h0 =~= h1.subrange(0, h0.len() as int));
        assert(h1 =~= h2.subrange(0, h1.len() as int));
    }
    assert(all =~= a + b) by {
        assert(h1 =~= h2.subrange(0, h1.len() as int));
    }
    assert(all.skip(s1.len() as int) =~= b);
    assert(follows(all, s1 + s2)) by {
        assert forall|i: int| 0 <= i < all.len() implies all[i].request == #[trigger] asked(
            (s1 + s2)[i],
            all,
            i,
        ) by {
            if i < a.len() {
                assert(all[i] == a[i]);
                if i > 0 {
                    assert(all[i - 1] == a[i - 1]);
                }
                assert(a[i].request == asked(s1[i], a, i));
                assert(byte_before(all, i) == byte_before(a, i));
            } else {
                let j = i - a.len();
                assert(all[i] == b[j]);
                if j > 0 {
                    assert(all[i - 1] == b[j - 1]);
                    assert(byte_before(all, i) == byte_before(b, j));
                }
                assert(b[j].request == asked(s2[j], b, j));
            }
        }
        assert forall|i: int| 0 <= i < all.len() - 1 implies (#[trigger] all[i]).reply is Ok by {
            if i < a.len() {
                assert(all[i] == a[i]);
            } else {
                assert(all[i] == b[i - a.len()]);
            }
        }
        assert forall|i: int| 0 <= i < all.len() implies answered(#[trigger] all[i]) by {
            if i < a.len() {
                assert(all[i] == a[i]);
            } else {
                assert(all[i] == b[i - a.len()]);
            }
        }
    }
}

/// A run that the bus failed follows every script that goes on from the one
/// it follows.
pub proof fn lemma_follows_failed<C, P>(said: Seq<Exchange<C, P>>, script: Seq<Step>, rest: Seq<Step>)
    requires
        follows(said, script),
        failure(said) is Some,
    ensures
        follows(said, script + rest),
{
    reveal(follows);
    assert forall|i: int| 0 <= i < said.len() implies said[i].request == #[trigger] asked(
        (script + rest)[i],
        said,
        i,
    ) by {
        assert(said[i].request == asked(script[i], said, i));
    }
}

/// One more part of an operation `full`: after a run of the steps `done`,
/// which came to its end without a failure, a run of the steps `step` makes a
/// run of both, and a run of `full` where it is failed or `full` ends there.
pub proof fn lemma_step<C, P>(
    h0: Seq<Exchange<C, P>>,
    h1: Seq<Exchange<C, P>>,
    h2: Seq<Exchange<C, P>>,
    done: Seq<Step>,
    step: Seq<Step>,
    full: Seq<Step>,
)
    requires
        h0.is_prefix_of(h1),
        h1.is_prefix_of(h2),
        follows(since(h0, h1), done),
        failure(since(h0, h1)) is None,
        follows(since(h1, h2), step),
        starts_plain(step),
        (done + step).is_prefix_of(full),
    ensures
        h0.is_prefix_of(h2),
        since(h0, h1).len() == done.len(),
        since(h0, h2) == since(h0, h1) + since(h1, h2),
        since(h1, h2).len() <= step.len(),
        failure(since(h1, h2)) is None ==> since(h1, h2).len() == step.len(),
        carried(since(h0, h2)) == done.len() + carried(since(h1, h2)),
        done.len() <= carried(since(h0, h2)) <= done.len() + step.len(),
        carried(since(h0, h2)) == done.len() + step.len() <==> since(h1, h2).len() == step.len()
            && failure(since(h1, h2)) is None,
        follows(since(h0, h2), done + step),
        failure(since(h0, h2)) == failure(since(h1, h2)),
        failure(since(h1, h2)) is Some ==> follows(since(h0, h2), full),
        (done + step).len() == full.len() ==> follows(since(h0, h2), full),
{
    assert(since(h1, h2).len() <= step.len() && (failure(since(h1, h2)) is None ==> since(
        h1,
        h2,
    ).len() == step.len())) by {
        reveal(follows);
    }
    lemma_follows_then(h0, h1, h2, done, step);
    reveal(carried);
    let rest = full.skip((done + step).len() as int);
    assert(full =~= (done + step) + rest);
    if failure(since(h1, h2)) is Some {
        lemma_follows_failed(since(h0, h2), done + step, rest);
    }
    if (done + step).len() == full.len() {
        assert(full =~= done + step);
    }
}

} // verus!
