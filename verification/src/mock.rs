//! A simulated bus, for running the driver without a chip: it records what
//! it is asked, answers reads from a list of prepared answers, and can be
//! told to fail an exchange.

use core::marker::PhantomData;
use vstd::prelude::*;
use vstd::slice::slice_to_vec;

use crate::base::{Hal, Request};
use crate::Error;

verus! {

/// One request as the simulated bus records it.
#[derive(Debug, Clone, PartialEq)]
pub enum Transaction {
    Reset,
    Delay(u32),
    WriteCmd(u8, Vec<u8>),
    ReadCmd(u8, usize),
    WriteRegs(u16, Vec<u8>),
    ReadRegs(u16, usize),
    WriteBuff(u8, Vec<u8>),
    ReadBuff(u8, usize),
}

impl Transaction {
    /// The request that this record stands for.
    pub open spec fn request(self) -> Request {
        match self {
            Transaction::Reset => Request::Reset,
            Transaction::Delay(ms) => Request::Delay(ms),
            Transaction::WriteCmd(command, data) => Request::WriteCmd(command, data@),
            Transaction::ReadCmd(command, len) => Request::ReadCmd(command, len as nat),
            Transaction::WriteRegs(reg, data) => Request::WriteRegs(reg, data@),
            Transaction::ReadRegs(reg, len) => Request::ReadRegs(reg, len as nat),
            Transaction::WriteBuff(offset, data) => Request::WriteBuff(offset, data@),
            Transaction::ReadBuff(offset, len) => Request::ReadBuff(offset, len as nat),
        }
    }
}

/// One exchange as the simulated bus records it: the request, and the bytes
/// it was answered with (none for a request that reads nothing), or `None`
/// where the bus failed it.
#[derive(Debug, Clone, PartialEq)]
pub struct Record {
    pub transaction: Transaction,
    pub reply: Option<Vec<u8>>,
}

/// `len` bytes of zero.
pub open spec fn zeros(len: nat) -> Seq<u8> {
    Seq::new(len, |i: int| 0u8)
}

/// The simulated bus. An exchange that it fails ends in `Aborted`; the error
/// types are those of the bus that it stands in for.
pub struct Mock<CommsError, PinError> {
    log: Vec<Record>,
    answers: Vec<Vec<u8>>,
    used: usize,
    failing: Option<usize>,
    _ce: PhantomData<CommsError>,
    _pe: PhantomData<PinError>,
}

impl<CommsError, PinError> Mock<CommsError, PinError> {
    /// Every exchange so far, oldest first, as recorded.
    pub closed spec fn recorded(&self) -> Seq<Record> {
        self.log@
    }

    /// The prepared answers that no read has taken yet, next first.
    pub closed spec fn pending(&self) -> Seq<Seq<u8>> {
        if self.used <= self.answers@.len() {
            self.answers@.skip(self.used as int).map_values(|v: Vec<u8>| v@)
        } else {
            Seq::empty()
        }
    }

    /// The number of the exchange that the bus is to fail, counted from 0.
    pub closed spec fn failing(&self) -> Option<usize> {
        self.failing
    }

    /// Whether the bus fails the next exchange.
    pub open spec fn fails_next(&self) -> bool {
        self.failing() == Some(self.recorded().len() as usize)
    }

    /// What a read of `len` bytes is answered with next, where the bus does
    /// not fail it for another reason: the next prepared answer, which has
    /// to have this length, and zeros where none is left.
    pub open spec fn next_answer(&self, len: nat) -> Option<Seq<u8>> {
        if self.pending().len() == 0 {
            Some(zeros(len))
        } else if self.pending()[0].len() == len {
            Some(self.pending()[0])
        } else {
            None
        }
    }

    /// The prepared answers that are left after the next read, where the
    /// bus does not fail it for another reason.
    pub open spec fn pending_after_read(&self) -> Seq<Seq<u8>> {
        if self.pending().len() == 0 {
            self.pending()
        } else {
            self.pending().skip(1)
        }
    }

    /// A bus that has been asked nothing, has no answer prepared and fails nothing.
    pub fn new() -> (mock: Self)
        ensures
            mock.recorded().len() == 0,
            mock.pending().len() == 0,
            mock.failing() is None,
    {
        Mock {
            log: Vec::new(),
            answers: Vec::new(),
            used: 0,
            failing: None,
            _ce: PhantomData,
            _pe: PhantomData,
        }
    }

    /// Prepares the answer to one more read.
    pub fn answer(&mut self, data: Vec<u8>)
        ensures
            final(self).recorded() == old(self).recorded(),
            final(self).failing() == old(self).failing(),
            final(self).pending() == old(self).pending().push(data@),
    {
        if self.used > self.answers.len() {
            self.used = self.answers.len();
        }
        let ghost before = self.answers@;
        self.answers.push(data);
        assert(self.answers@.skip(self.used as int).map_values(|v: Vec<u8>| v@) =~= before.skip(
            self.used as int,
        ).map_values(|v: Vec<u8>| v@).push(data@));
    }

    /// Has the bus fail exchange number `index`, counted from 0 over all
    /// exchanges, and no other. A wait cannot fail.
    pub fn fail_at(&mut self, index: usize)
        ensures
            final(self).recorded() == old(self).recorded(),
            final(self).pending() == old(self).pending(),
            final(self).failing() == Some(index),
    {
        self.failing = Some(index);
    }

    /// Every exchange so far, oldest first.
    pub fn log(&self) -> (log: &Vec<Record>)
        ensures
            log@ == self.recorded(),
    {
        &self.log
    }

    /// Records a request that reads nothing and answers it.
    fn write(&mut self, transaction: Transaction) -> (r: Result<(), Error<CommsError, PinError>>)
        ensures
            final(self).recorded().len() == old(self).recorded().len() + 1,
            final(self).recorded().drop_last() == old(self).recorded(),
            final(self).recorded().last().transaction == transaction,
            final(self).recorded().last().reply is Some == r is Ok,
            r is Ok ==> final(self).recorded().last().reply->Some_0@ == Seq::<u8>::empty(),
            final(self).pending() == old(self).pending(),
            final(self).failing() == old(self).failing(),
            r is Err <==> old(self).fails_next(),
    {
        let fails = match self.failing {
            Some(n) => n == self.log.len(),
            None => false,
        };
        let ghost before = self.log@;
        if fails {
            self.log.push(Record { transaction, reply: None });
            assert(self.log@.drop_last() =~= before);
            Err(Error::Aborted)
        } else {
            let nothing: Vec<u8> = Vec::new();
            assert(nothing@ =~= Seq::<u8>::empty());
            self.log.push(Record { transaction, reply: Some(nothing) });
            assert(self.log@.drop_last() =~= before);
            Ok(())
        }
    }

    /// Records a request that reads `data.len()` bytes and answers it into `data`.
    fn read(&mut self, transaction: Transaction, data: &mut [u8]) -> (r: Result<
        (),
        Error<CommsError, PinError>,
    >)
        ensures
            final(data)@.len() == old(data)@.len(),
            final(self).recorded().len() == old(self).recorded().len() + 1,
            final(self).recorded().drop_last() == old(self).recorded(),
            final(self).recorded().last().transaction == transaction,
            final(self).recorded().last().reply is Some == r is Ok,
            r is Ok ==> final(self).recorded().last().reply->Some_0@ == final(data)@,
            final(self).failing() == old(self).failing(),
            old(self).fails_next() ==> r is Err && final(self).pending() == old(self).pending(),
            !old(self).fails_next() ==> {
                &&& final(self).pending() == old(self).pending_after_read()
                &&& match old(self).next_answer(old(data)@.len()) {
                    Some(bytes) => r is Ok && final(data)@ == bytes,
                    None => r is Err,
                }
            },
    {
        let ghost before = self.log@;
        let fails = match self.failing {
            Some(n) => n == self.log.len(),
            None => false,
        };
        if fails {
            self.log.push(Record { transaction, reply: None });
            assert(self.log@.drop_last() =~= before);
            return Err(Error::Aborted);
        }
        let n = data.len();
        if self.used >= self.answers.len() {
            let mut i: usize = 0;
            while i < n
                invariant
                    n == data@.len(),
                    0 <= i <= n,
                    forall|j: int| 0 <= j < i ==> data@[j] == 0u8,
                decreases n - i,
            {
                data[i] = 0u8;
                i += 1;
            }
            assert(data@ =~= zeros(n as nat));
            assert(self.pending() =~= Seq::<Seq<u8>>::empty());
            self.log.push(Record { transaction, reply: Some(slice_to_vec(data)) });
            assert(self.log@.drop_last() =~= before);
            return Ok(());
        }
        let ghost pending = self.pending();
        let ghost answers = self.answers@;
        let ghost used = self.used as int;
        assert(pending[0] == answers[used]@);
        assert(answers.skip(used + 1).map_values(|v: Vec<u8>| v@) =~= pending.skip(1));
        let fits = self.answers[self.used].len() == n;
        if fits {
            let mut i: usize = 0;
            while i < n
                invariant
                    n == data@.len(),
                    0 <= i <= n,
                    self.used < self.answers@.len(),
                    self.answers@ == answers,
                    self.used == used,
                    self.answers@[used]@.len() == n,
                    forall|j: int| 0 <= j < i ==> data@[j] == self.answers@[used]@[j],
                decreases n - i,
            {
                data[i] = self.answers[self.used][i];
                i += 1;
            }
            assert(data@ =~= pending[0]);
            self.used = self.used + 1;
            self.log.push(Record { transaction, reply: Some(slice_to_vec(data)) });
            assert(self.log@.drop_last() =~= before);
            Ok(())
        } else {
            self.used = self.used + 1;
            self.log.push(Record { transaction, reply: None });
            assert(self.log@.drop_last() =~= before);
            Err(Error::Aborted)
        }
    }
}

impl<CommsError, PinError> Hal<CommsError, PinError> for Mock<CommsError, PinError> {
    fn reset(&mut self) -> (r: Result<(), Error<CommsError, PinError>>)
        ensures
            final(self).recorded().len() == old(self).recorded().len() + 1,
            final(self).recorded().drop_last() == old(self).recorded(),
            final(self).recorded().last().transaction == Transaction::Reset,
            final(self).recorded().last().reply is Some == r is Ok,
            r is Ok ==> final(self).recorded().last().reply->Some_0@ == Seq::<u8>::empty(),
            final(self).pending() == old(self).pending(),
            final(self).failing() == old(self).failing(),
            r is Err <==> old(self).fails_next(),
    {
        self.write(Transaction::Reset)
    }

    fn delay_ms(&mut self, ms: u32)
        ensures
            final(self).recorded().len() == old(self).recorded().len() + 1,
            final(self).recorded().drop_last() == old(self).recorded(),
            final(self).recorded().last().transaction == Transaction::Delay(ms),
            final(self).pending() == old(self).pending(),
            final(self).failing() == old(self).failing(),
    {
        let ghost before = self.log@;
        let nothing: Vec<u8> = Vec::new();
        assert(nothing@ =~= Seq::<u8>::empty());
        self.log.push(Record { transaction: Transaction::Delay(ms), reply: Some(nothing) });
        assert(self.log@.drop_last() =~= before);
    }

    fn write_cmd(&mut self, command: u8, data: &[u8]) -> (r: Result<
        (),
        Error<CommsError, PinError>,
    >)
        ensures
            final(self).recorded().len() == old(self).recorded().len() + 1,
            final(self).recorded().drop_last() == old(self).recorded(),
            final(self).recorded().last().transaction.request() == Request::WriteCmd(command, data@),
            final(self).recorded().last().reply is Some == r is Ok,
            r is Ok ==> final(self).recorded().last().reply->Some_0@ == Seq::<u8>::empty(),
            final(self).pending() == old(self).pending(),
            final(self).failing() == old(self).failing(),
            r is Err <==> old(self).fails_next(),
    {
        self.write(Transaction::WriteCmd(command, slice_to_vec(data)))
    }

    fn read_cmd(&mut self, command: u8, data: &mut [u8]) -> (r: Result<
        (),
        Error<CommsError, PinError>,
    >)
        ensures
            final(self).recorded().len() == old(self).recorded().len() + 1,
            final(self).recorded().drop_last() == old(self).recorded(),
            final(self).recorded().last().transaction == Transaction::ReadCmd(command, old(data)@.len() as usize),
            final(self).recorded().last().reply is Some == r is Ok,
            r is Ok ==> final(self).recorded().last().reply->Some_0@ == final(data)@,
            final(self).failing() == old(self).failing(),
            old(self).fails_next() ==> r is Err && final(self).pending() == old(self).pending(),
            !old(self).fails_next() ==> {
                &&& final(self).pending() == old(self).pending_after_read()
                &&& match old(self).next_answer(old(data)@.len()) {
                    Some(bytes) => r is Ok && final(data)@ == bytes,
                    None => r is Err,
                }
            },
    {
        self.read(Transaction::ReadCmd(command, data.len()), data)
    }

    fn write_regs(&mut self, reg: u16, data: &[u8]) -> (r: Result<(), Error<CommsError, PinError>>)
        ensures
            final(self).recorded().len() == old(self).recorded().len() + 1,
            final(self).recorded().drop_last() == old(self).recorded(),
            final(self).recorded().last().transaction.request() == Request::WriteRegs(reg, data@),
            final(self).recorded().last().reply is Some == r is Ok,
            r is Ok ==> final(self).recorded().last().reply->Some_0@ == Seq::<u8>::empty(),
            final(self).pending() == old(self).pending(),
            final(self).failing() == old(self).failing(),
            r is Err <==> old(self).fails_next(),
    {
        self.write(Transaction::WriteRegs(reg, slice_to_vec(data)))
    }

    fn read_regs(&mut self, reg: u16, data: &mut [u8]) -> (r: Result<
        (),
        Error<CommsError, PinError>,
    >)
        ensures
            final(self).recorded().len() == old(self).recorded().len() + 1,
            final(self).recorded().drop_last() == old(self).recorded(),
            final(self).recorded().last().transaction == Transaction::ReadRegs(reg, old(data)@.len() as usize),
            final(self).recorded().last().reply is Some == r is Ok,
            r is Ok ==> final(self).recorded().last().reply->Some_0@ == final(data)@,
            final(self).failing() == old(self).failing(),
            old(self).fails_next() ==> r is Err && final(self).pending() == old(self).pending(),
            !old(self).fails_next() ==> {
                &&& final(self).pending() == old(self).pending_after_read()
                &&& match old(self).next_answer(old(data)@.len()) {
                    Some(bytes) => r is Ok && final(data)@ == bytes,
                    None => r is Err,
                }
            },
    {
        self.read(Transaction::ReadRegs(reg, data.len()), data)
    }

    fn write_buff(&mut self, offset: u8, data: &[u8]) -> (r: Result<
        (),
        Error<CommsError, PinError>,
    >)
        ensures
            final(self).recorded().len() == old(self).recorded().len() + 1,
            final(self).recorded().drop_last() == old(self).recorded(),
            final(self).recorded().last().transaction.request() == Request::WriteBuff(offset, data@),
            final(self).recorded().last().reply is Some == r is Ok,
            r is Ok ==> final(self).recorded().last().reply->Some_0@ == Seq::<u8>::empty(),
            final(self).pending() == old(self).pending(),
            final(self).failing() == old(self).failing(),
            r is Err <==> old(self).fails_next(),
    {
        self.write(Transaction::WriteBuff(offset, slice_to_vec(data)))
    }

    fn read_buff(&mut self, offset: u8, data: &mut [u8]) -> (r: Result<
        (),
        Error<CommsError, PinError>,
    >)
        ensures
            final(self).recorded().len() == old(self).recorded().len() + 1,
            final(self).recorded().drop_last() == old(self).recorded(),
            final(self).recorded().last().transaction == Transaction::ReadBuff(offset, old(data)@.len() as usize),
            final(self).recorded().last().reply is Some == r is Ok,
            r is Ok ==> final(self).recorded().last().reply->Some_0@ == final(data)@,
            final(self).failing() == old(self).failing(),
            old(self).fails_next() ==> r is Err && final(self).pending() == old(self).pending(),
            !old(self).fails_next() ==> {
                &&& final(self).pending() == old(self).pending_after_read()
                &&& match old(self).next_answer(old(data)@.len()) {
                    Some(bytes) => r is Ok && final(data)@ == bytes,
                    None => r is Err,
                }
            },
    {
        self.read(Transaction::ReadBuff(offset, data.len()), data)
    }
}

} // verus!
