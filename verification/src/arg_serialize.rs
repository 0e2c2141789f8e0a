//! Writing the arguments of an asynchronous call.
//!
//! Each argument value contributes raw arguments to the call data, each of
//! them the top-level form of one value.

use vstd::prelude::*;
use crate::arg_types::{OptionalArg, VarArgs};
use crate::codec::Encode;
use crate::error::SCError;

verus! {

/// The data of an outgoing call: the raw arguments written so far, in
/// their order.
pub struct CallDataSerializer {
    args: Vec<Vec<u8>>,
}

impl View for CallDataSerializer {
    type V = Seq<Seq<u8>>;

    closed spec fn view(&self) -> Seq<Seq<u8>> {
        Seq::new(self.args@.len(), |i: int| self.args@[i]@)
    }
}

impl CallDataSerializer {
    /// Call data without arguments.
    pub fn new() -> (r: CallDataSerializer)
        ensures
            r@ == Seq::<Seq<u8>>::empty(),
    {
        let r = CallDataSerializer { args: Vec::new() };
        proof {
            assert(r@ =~= Seq::<Seq<u8>>::empty());
        }
        r
    }

    /// Writes `bytes` as the next raw argument.
    pub fn push_argument_bytes(&mut self, bytes: Vec<u8>)
        ensures
            final(self)@ == old(self)@.push(bytes@),
    {
        self.args.push(bytes);
        proof {
            assert(self@ =~= old(self)@.push(bytes@));
        }
    }

    /// The raw arguments written, in their order.
    pub fn into_args(self) -> (r: Vec<Vec<u8>>)
        ensures
            Seq::new(r@.len(), |i: int| r@[i]@) == self@,
    {
        self.args
    }
}

/// A value that can be written as arguments of an asynchronous call.
pub trait AsynCallArg: Sized {
    /// The raw arguments that the value contributes, or the error that
    /// writing it ends with.
    spec fn async_args(&self) -> Result<Seq<Seq<u8>>, SCError>;

    /// The raw arguments that writing the value puts into the call data:
    /// all that it contributes where the writing succeeds, and those of the
    /// parts before the failing one where it ends with an error.
    spec fn async_written(&self) -> Seq<Seq<u8>>;

    /// What the value contributes when it is to hold `expected_len`
    /// arguments. Without the arity-checked form a type gives "not
    /// supported".
    open spec fn async_args_exact(&self, expected_len: usize) -> Result<Seq<Seq<u8>>, SCError> {
        Err(SCError::NotSupported)
    }

    /// What the arity-checked writing puts into the call data. Without the
    /// arity-checked form a type writes nothing.
    open spec fn async_written_exact(&self, expected_len: usize) -> Seq<Seq<u8>> {
        Seq::empty()
    }

    /// Writes the value behind what `serializer` holds. Where an error
    /// ends the writing, what was written before it stays, and nothing
    /// else is written.
    fn push_async_arg(&self, serializer: &mut CallDataSerializer) -> (r: Result<(), SCError>)
        ensures
            final(serializer)@ == old(serializer)@ + self.async_written(),
            match r {
                Ok(()) => self.async_args() == Ok::<Seq<Seq<u8>>, SCError>(self.async_written()),
                Err(e) => self.async_args() == Err::<Seq<Seq<u8>>, SCError>(e),
            },
    ;

    /// Writes the value after checking that it holds `expected_len`
    /// arguments. A type that has not taken this form up writes nothing
    /// and gives "not supported".
    fn push_async_arg_exact(&self, serializer: &mut CallDataSerializer, expected_len: usize) -> (r:
        Result<(), SCError>)
        ensures
            match r {
                Ok(()) => {
                    &&& self.async_args_exact(expected_len) == Ok::<Seq<Seq<u8>>, SCError>(
                        self.async_written_exact(expected_len),
                    )
                    &&& final(serializer)@ == old(serializer)@ + self.async_written_exact(
                        expected_len,
                    )
                },
                Err(e) => {
                    ||| {
                        &&& self.async_args_exact(expected_len) == Err::<Seq<Seq<u8>>, SCError>(e)
                        &&& final(serializer)@ == old(serializer)@ + self.async_written_exact(
                            expected_len,
                        )
                    }
                    ||| e == SCError::NotSupported && final(serializer)@ == old(serializer)@
                },
            },
    {
        Err(SCError::NotSupported)
    }
}

/// An encodable value contributes one raw argument, its top-level form.
/// Where it cannot be encoded, nothing is written.
impl<T: Encode> AsynCallArg for T {
    open spec fn async_args(&self) -> Result<Seq<Seq<u8>>, SCError> {
        match self.top_encoded() {
            Ok(bytes) => Ok(seq![bytes]),
            Err(e) => Err(SCError::PushAsyncEncodeErr(e)),
        }
    }

    open spec fn async_written(&self) -> Seq<Seq<u8>> {
        match self.top_encoded() {
            Ok(bytes) => seq![bytes],
            Err(e) => Seq::empty(),
        }
    }

    fn push_async_arg(&self, serializer: &mut CallDataSerializer) -> (r: Result<(), SCError>) {
        match self.top_encode() {
            Ok(buf) => {
                serializer.push_argument_bytes(buf);
                proof {
                    assert(serializer@ =~= old(serializer)@ + seq![buf@]);
                }
                Ok(())
            },
            Err(e) => {
                proof {
                    assert(serializer@ =~= old(serializer)@ + Seq::<Seq<u8>>::empty());
                }
                Err(SCError::PushAsyncEncodeErr(e))
            },
        }
    }
}

/// What the elements of a list contribute, one after the other; the first
/// error ends it.
pub open spec fn async_args_of_all<T: AsynCallArg>(items: Seq<T>) -> Result<Seq<Seq<u8>>, SCError>
    decreases items.len(),
{
    if items.len() == 0 {
        Ok(Seq::empty())
    } else {
        match async_args_of_all(items.drop_last()) {
            Err(e) => Err(e),
            Ok(front) => match items.last().async_args() {
                Ok(back) => Ok(front + back),
                Err(e) => Err(e),
            },
        }
    }
}

/// What writing the elements of a list one after the other puts into the
/// call data: nothing more once an element has failed.
pub open spec fn async_written_of_all<T: AsynCallArg>(items: Seq<T>) -> Seq<Seq<u8>>
    decreases items.len(),
{
    if items.len() == 0 {
        Seq::empty()
    } else if async_args_of_all(items.drop_last()) is Err {
        async_written_of_all(items.drop_last())
    } else {
        async_written_of_all(items.drop_last()) + items.last().async_written()
    }
}

/// An error among the first elements is the error of the whole list, and
/// what was written up to it is all that is written.
pub proof fn lemma_async_args_error_stays<T: AsynCallArg>(items: Seq<T>, n: int)
    requires
        0 <= n <= items.len(),
        async_args_of_all(items.take(n)) is Err,
    ensures
        async_args_of_all(items) == async_args_of_all(items.take(n)),
        async_written_of_all(items) == async_written_of_all(items.take(n)),
    decreases items.len() - n,
{
    if n < items.len() {
        assert(items.take(n + 1).drop_last() =~= items.take(n));
        lemma_async_args_error_stays(items, n + 1);
    } else {
        assert(items.take(n) =~= items);
    }
}

impl<T: AsynCallArg> AsynCallArg for VarArgs<T> {
    /// A list contributes what its elements contribute, in their order.
    open spec fn async_args(&self) -> Result<Seq<Seq<u8>>, SCError> {
        async_args_of_all(self.0@)
    }

    /// A list writes its elements in their order, up to the first that
    /// fails.
    open spec fn async_written(&self) -> Seq<Seq<u8>> {
        async_written_of_all(self.0@)
    }

    /// A list that does not hold `expected_len` elements is a wrong
    /// number of arguments.
    open spec fn async_args_exact(&self, expected_len: usize) -> Result<Seq<Seq<u8>>, SCError> {
        if self.0@.len() != expected_len {
            Err(SCError::ArgAsyncWrongNumber)
        } else {
            self.async_args()
        }
    }

    /// A list that does not hold `expected_len` elements writes nothing.
    open spec fn async_written_exact(&self, expected_len: usize) -> Seq<Seq<u8>> {
        if self.0@.len() != expected_len {
            Seq::empty()
        } else {
            self.async_written()
        }
    }

    fn push_async_arg(&self, serializer: &mut CallDataSerializer) -> (r: Result<(), SCError>) {
        let mut i: usize = 0;
        proof {
            assert(self.0@.take(0) =~= Seq::<T>::empty());
            assert(serializer@ + Seq::<Seq<u8>>::empty() =~= serializer@);
        }
        while i < self.0.len()
            invariant
                i <= self.0@.len(),
                async_args_of_all(self.0@.take(i as int)) == Ok::<Seq<Seq<u8>>, SCError>(
                    async_written_of_all(self.0@.take(i as int)),
                ),
                serializer@ == old(serializer)@ + async_written_of_all(self.0@.take(i as int)),
            decreases self.0@.len() - i,
        {
            let ghost front = async_written_of_all(self.0@.take(i as int));
            proof {
                assert(self.0@.take(i + 1).drop_last() =~= self.0@.take(i as int));
            }
            match self.0[i].push_async_arg(serializer) {
                Ok(()) => {
                    proof {
                        let back = self.0@[i as int].async_written();
                        assert(serializer@ =~= old(serializer)@ + (front + back));
                    }
                },
                Err(e) => {
                    proof {
                        let back = self.0@[i as int].async_written();
                        assert(serializer@ =~= old(serializer)@ + (front + back));
                        lemma_async_args_error_stays(self.0@, i + 1);
                    }
                    return Err(e);
                },
            }
            i = i + 1;
        }
        proof {
            assert(self.0@.take(i as int) =~= self.0@);
        }
        Ok(())
    }

    /// With another count than `expected_len` nothing is written and the
    /// result is the error of a wrong number of arguments; with that count
    /// the list is written as without the check.
    fn push_async_arg_exact(&self, serializer: &mut CallDataSerializer, expected_len: usize) -> (r:
        Result<(), SCError>)
        ensures
            final(serializer)@ == old(serializer)@ + self.async_written_exact(expected_len),
            r matches Err(e) ==> self.async_args_exact(expected_len) == Err::<
                Seq<Seq<u8>>,
                SCError,
            >(e),
    {
        if self.len() != expected_len {
            proof {
                assert(serializer@ + Seq::<Seq<u8>>::empty() =~= serializer@);
            }
            return Err(SCError::ArgAsyncWrongNumber);
        }
        match self.push_async_arg(serializer) {
            Ok(()) => Ok(()),
            Err(e) => Err(e),
        }
    }
}

impl<T: AsynCallArg> AsynCallArg for OptionalArg<T> {
    /// A present value contributes what it contributes; an absent one
    /// contributes nothing.
    open spec fn async_args(&self) -> Result<Seq<Seq<u8>>, SCError> {
        match self {
            OptionalArg::Present(t) => t.async_args(),
            OptionalArg::Absent => Ok(Seq::empty()),
        }
    }

    open spec fn async_written(&self) -> Seq<Seq<u8>> {
        match self {
            OptionalArg::Present(t) => t.async_written(),
            OptionalArg::Absent => Seq::empty(),
        }
    }

    fn push_async_arg(&self, serializer: &mut CallDataSerializer) -> (r: Result<(), SCError>) {
        match self {
            OptionalArg::Present(t) => match t.push_async_arg(serializer) {
                Ok(()) => Ok(()),
                Err(e) => Err(e),
            },
            OptionalArg::Absent => {
                proof {
                    assert(serializer@ + Seq::<Seq<u8>>::empty() =~= serializer@);
                }
                Ok(())
            },
        }
    }
}

/// A list of encodable elements that is pushed with an expected count is
/// written whole where it holds that many elements, and contributes one
/// raw argument for each; with any other count nothing is written and the
/// result is the error of a wrong number of arguments.
pub proof fn lemma_push_exact<T: Encode>(list: VarArgs<T>, expected_len: usize)
    requires
        forall|i: int| 0 <= i < list.0@.len() ==> (#[trigger] list.0@[i].top_encoded()) is Ok,
    ensures
        list.0@.len() == expected_len ==> {
            let all = Seq::new(list.0@.len(), |i: int| list.0@[i].top_encoded()->Ok_0);
            &&& list.async_args_exact(expected_len) == Ok::<Seq<Seq<u8>>, SCError>(all)
            &&& list.async_written_exact(expected_len) == all
        },
        list.0@.len() != expected_len ==> {
            &&& list.async_args_exact(expected_len) == Err::<Seq<Seq<u8>>, SCError>(
                SCError::ArgAsyncWrongNumber,
            )
            &&& list.async_written_exact(expected_len) == Seq::<Seq<u8>>::empty()
        },
{
    lemma_async_args_of_encodable(list.0@);
}

/// Encodable elements contribute their top-level forms, one raw argument
/// each and in their order, and these are what is written.
pub proof fn lemma_async_args_of_encodable<T: Encode>(items: Seq<T>)
    requires
        forall|i: int| 0 <= i < items.len() ==> (#[trigger] items[i].top_encoded()) is Ok,
    ensures
        async_args_of_all(items) == Ok::<Seq<Seq<u8>>, SCError>(
            Seq::new(items.len(), |i: int| items[i].top_encoded()->Ok_0),
        ),
        async_written_of_all(items) == Seq::new(
            items.len(),
            |i: int| items[i].top_encoded()->Ok_0,
        ),
    decreases items.len(),
{
    let all = Seq::new(items.len(), |i: int| items[i].top_encoded()->Ok_0);
    if items.len() == 0 {
        assert(all =~= Seq::<Seq<u8>>::empty());
    } else {
        let front = items.drop_last();
        lemma_async_args_of_encodable(front);
        let front_all = Seq::new(front.len(), |i: int| front[i].top_encoded()->Ok_0);
        assert(items.last().top_encoded() is Ok);
        assert(front_all + seq![items.last().top_encoded()->Ok_0] =~= all);
    }
}

/// Where the element at `k` is the first of a list of encodable elements
/// that cannot be encoded, writing the list ends with its error, and just
/// the top-level forms of the elements before it have been written, in
/// their order.
pub proof fn lemma_async_written_until_error<T: Encode>(items: Seq<T>, k: int)
    requires
        0 <= k < items.len(),
        forall|i: int| 0 <= i < k ==> (#[trigger] items[i].top_encoded()) is Ok,
        items[k].top_encoded() is Err,
    ensures
        async_args_of_all(items) == Err::<Seq<Seq<u8>>, SCError>(
            SCError::PushAsyncEncodeErr(items[k].top_encoded()->Err_0),
        ),
        async_written_of_all(items) == Seq::new(k as nat, |i: int| items[i].top_encoded()->Ok_0),
{
    let before = items.take(k);
    let upto = items.take(k + 1);
    assert forall|i: int| 0 <= i < before.len() implies (#[trigger] before[i].top_encoded())
        is Ok by {
        assert(before[i] == items[i]);
    }
    lemma_async_args_of_encodable(before);
    assert(upto.drop_last() =~= before);
    assert(upto.last() == items[k]);
    assert(Seq::new(before.len(), |i: int| before[i].top_encoded()->Ok_0) =~= Seq::new(
        k as nat,
        |i: int| items[i].top_encoded()->Ok_0,
    ));
    let written = async_written_of_all(before);
    assert(written + Seq::<Seq<u8>>::empty() =~= written);
    lemma_async_args_error_stays(items, k + 1);
}

} // verus!
