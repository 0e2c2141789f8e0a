//! Typed loading of the arguments of a contract call.
//!
//! A call arrives as a sequence of raw arguments, each a byte string. An
//! argument type says how a value of it is taken from the front of that
//! sequence: how many raw arguments it uses and what they denote.

use vstd::prelude::*;
use vstd::slice::slice_to_vec;
use crate::codec::{Decode, Input};
use crate::error::SCError;

verus! {

/// A label for one argument slot, carried for diagnostics only.
pub type ArgId = &'static [u8];

/// A source of raw arguments, handed out one at a time from the front.
pub trait DynArgLoader: Sized {
    /// The raw arguments that have not been handed out yet. A source that
    /// is written outside the verifier has no model and leaves this open.
    open spec fn remaining(&self) -> Seq<Seq<u8>> {
        arbitrary()
    }

    /// Whether a raw argument is left.
    fn has_next(&self) -> (r: bool)
        ensures
            r == (self.remaining().len() > 0),
    ;

    /// Hands out the next raw argument, or nothing when none is left.
    fn next_arg(&mut self, arg_id: ArgId) -> (r: Option<Vec<u8>>)
        ensures
            match r {
                Some(bytes) => {
                    &&& old(self).remaining().len() > 0
                    &&& bytes@ == old(self).remaining()[0]
                    &&& final(self).remaining() == old(self).remaining().skip(1)
                },
                None => {
                    &&& old(self).remaining().len() == 0
                    &&& final(self).remaining() == old(self).remaining()
                },
            },
    ;
}

/// A type that can be loaded from a source of raw arguments.
pub trait ArgType<D: DynArgLoader>: Sized + View {
    /// What loading from the raw arguments `args` gives: the value and the
    /// number of raw arguments used, or the error.
    spec fn load_spec(args: Seq<Seq<u8>>) -> Result<(Self::V, nat), SCError>;

    /// No load uses more raw arguments than there are.
    proof fn lemma_load_bound(args: Seq<Seq<u8>>)
        ensures
            Self::load_spec(args) matches Ok((_, k)) ==> k <= args.len(),
    ;

    /// Loads one value from the front of `loader`. Whatever comes out, the
    /// loader is left with a tail of what it held.
    fn load(loader: &mut D, arg_id: ArgId) -> (r: Result<Self, SCError>)
        ensures
            final(loader).remaining().is_suffix_of(old(loader).remaining()),
            match r {
                Ok(v) => {
                    &&& Self::load_spec(old(loader).remaining()) matches Ok((m, k))
                    &&& m == v@
                    &&& k <= old(loader).remaining().len()
                    &&& final(loader).remaining() == old(loader).remaining().skip(k as int)
                },
                Err(e) => Self::load_spec(old(loader).remaining()) == Err::<
                    (Self::V, nat),
                    SCError,
                >(e),
            },
    ;
}

/// An argument type that uses at least one raw argument whenever it is
/// loaded from a source that has one.
pub trait TakesArg<D: DynArgLoader>: ArgType<D> {
    proof fn lemma_takes_arg(args: Seq<Seq<u8>>)
        requires
            args.len() > 0,
        ensures
            Self::load_spec(args) matches Ok((_, k)) ==> k >= 1,
    ;
}

/// Dropping `j` and then `k` items drops `j + k`.
pub proof fn lemma_skip_skip<A>(s: Seq<A>, j: nat, k: nat)
    requires
        j + k <= s.len(),
    ensures
        s.skip(j as int).skip(k as int) == s.skip((j + k) as int),
{
    assert(s.skip(j as int).skip(k as int) =~= s.skip((j + k) as int));
}

/// What is left after dropping items from the front is a tail.
pub proof fn lemma_skip_is_suffix<A>(s: Seq<A>, k: nat)
    requires
        k <= s.len(),
    ensures
        s.skip(k as int).is_suffix_of(s),
{
    assert(s.skip(k as int) =~= s.subrange(s.len() - s.skip(k as int).len(), s.len() as int));
}

/// A tail of a tail is a tail.
pub proof fn lemma_suffix_transitive<A>(a: Seq<A>, b: Seq<A>, c: Seq<A>)
    requires
        a.is_suffix_of(b),
        b.is_suffix_of(c),
    ensures
        a.is_suffix_of(c),
{
    assert(a =~= c.subrange(c.len() - a.len(), c.len() as int));
}

/// Loads one value of type `T` from `loader`.
pub fn load_dyn_arg<T, D>(loader: &mut D, arg_id: ArgId) -> (r: Result<T, SCError>) where
    T: ArgType<D>,
    D: DynArgLoader,

    ensures
        final(loader).remaining().is_suffix_of(old(loader).remaining()),
        match r {
            Ok(v) => {
                &&& T::load_spec(old(loader).remaining()) matches Ok((m, k))
                &&& m == v@
                &&& k <= old(loader).remaining().len()
                &&& final(loader).remaining() == old(loader).remaining().skip(k as int)
            },
            Err(e) => T::load_spec(old(loader).remaining()) == Err::<(T::V, nat), SCError>(e),
        },
{
    match T::load(loader, arg_id) {
        Ok(arg) => Ok(arg),
        Err(sc_err) => Err(sc_err),
    }
}

/// Checks that every raw argument has been used: a raw argument that is
/// left over is a wrong number of arguments.
pub fn check_no_more_args<D>(loader: &D) -> (r: Result<(), SCError>) where D: DynArgLoader
    ensures
        r == (if loader.remaining().len() > 0 {
            Err::<(), SCError>(SCError::ArgWrongNumber)
        } else {
            Ok::<(), SCError>(())
        }),
{
    if loader.has_next() {
        Err(SCError::ArgWrongNumber)
    } else {
        Ok(())
    }
}

/// The unit type is loaded without a raw argument.
impl<D: DynArgLoader> ArgType<D> for () {
    open spec fn load_spec(args: Seq<Seq<u8>>) -> Result<((), nat), SCError> {
        Ok(((), 0nat))
    }

    proof fn lemma_load_bound(args: Seq<Seq<u8>>) {
    }

    fn load(loader: &mut D, arg_id: ArgId) -> (r: Result<Self, SCError>) {
        proof {
            lemma_skip_is_suffix(loader.remaining(), 0);
            assert(loader.remaining().skip(0) =~= loader.remaining());
        }
        Ok(())
    }
}

/// A decodable type is loaded from one raw argument, read in the top-level
/// form.
impl<T: Decode, D: DynArgLoader> ArgType<D> for T {
    open spec fn load_spec(args: Seq<Seq<u8>>) -> Result<(Self::V, nat), SCError> {
        if args.len() == 0 {
            Err(SCError::ArgWrongNumber)
        } else {
            match T::top_decoded(args[0]) {
                Ok(m) => Ok((m, 1nat)),
                Err(e) => Err(SCError::ArgDecodeErr(e)),
            }
        }
    }

    proof fn lemma_load_bound(args: Seq<Seq<u8>>) {
    }

    /// The raw argument is used up also where it cannot be decoded.
    fn load(loader: &mut D, arg_id: ArgId) -> (r: Result<Self, SCError>)
        ensures
            ({
                let before = old(loader).remaining();
                let after = final(loader).remaining();
                if before.len() > 0 {
                    after == before.skip(1)
                } else {
                    after == before
                }
            }),
    {
        proof {
            lemma_skip_is_suffix(loader.remaining(), 0);
            assert(loader.remaining().skip(0) =~= loader.remaining());
            if loader.remaining().len() > 0 {
                lemma_skip_is_suffix(loader.remaining(), 1);
            }
        }
        match loader.next_arg(arg_id) {
            Some(bytes) => {
                let mut input = Input::new(bytes);
                match T::top_decode(&mut input) {
                    Ok(arg) => Ok(arg),
                    Err(e) => Err(SCError::ArgDecodeErr(e)),
                }
            },
            None => Err(SCError::ArgWrongNumber),
        }
    }
}

impl<T: Decode, D: DynArgLoader> TakesArg<D> for T {
    proof fn lemma_takes_arg(args: Seq<Seq<u8>>) {
    }
}

/// What stands for a loaded list once `acc` has been loaded from `taken`
/// raw arguments and `rest` tells how the loading goes on.
pub open spec fn prepend_loaded<V>(
    acc: Seq<V>,
    taken: nat,
    rest: Result<(Seq<V>, nat), SCError>,
) -> Result<(Seq<V>, nat), SCError> {
    match rest {
        Ok((vs, k)) => Ok((acc + vs, taken + k)),
        Err(e) => Err(e),
    }
}

/// A list of arguments of one type, which takes all the raw arguments that
/// are left.
pub struct VarArgs<T>(pub Vec<T>);

impl<T: View> View for VarArgs<T> {
    type V = Seq<T::V>;

    open spec fn view(&self) -> Seq<T::V> {
        Seq::new(self.0@.len(), |i: int| self.0@[i]@)
    }
}

impl<T> VarArgs<T> {
    /// The empty list.
    pub fn new() -> (r: Self)
        ensures
            r.0@ == Seq::<T>::empty(),
    {
        VarArgs(Vec::new())
    }

    /// The elements, in their order.
    pub fn into_vec(self) -> (r: Vec<T>)
        ensures
            r == self.0,
    {
        self.0
    }

    /// The elements, in their order.
    pub fn as_slice(&self) -> (r: &[T])
        ensures
            r@ == self.0@,
    {
        self.0.as_slice()
    }

    /// Appends `value` behind the elements.
    pub fn push(&mut self, value: T)
        ensures
            final(self).0@ == old(self).0@.push(value),
    {
        self.0.push(value);
    }

    /// The number of elements.
    pub fn len(&self) -> (r: usize)
        ensures
            r == self.0@.len(),
    {
        self.0.len()
    }

    /// Whether the list has no element.
    pub fn is_empty(&self) -> (r: bool)
        ensures
            r == (self.0@.len() == 0),
    {
        self.0.len() == 0
    }

    /// An iterator over the elements, in their order.
    pub fn iter(&self) -> (r: core::slice::Iter<'_, T>)
        ensures
            vstd::std_specs::slice::into_iter_elts(r) == self.0@,
    {
        let elements = self.0.as_slice();
        let r = elements.iter();
        proof {
            vstd::std_specs::slice::axiom_spec_slice_iter(elements);
            assert(vstd::std_specs::slice::into_iter_elts(r) =~= self.0@);
        }
        r
    }
}

impl<T> From<Vec<T>> for VarArgs<T> {
    fn from(v: Vec<T>) -> (r: Self) {
        VarArgs(v)
    }
}

impl<T> vstd::std_specs::convert::FromSpecImpl<Vec<T>> for VarArgs<T> {
    open spec fn obeys_from_spec() -> bool {
        true
    }

    open spec fn from_spec(v: Vec<T>) -> Self {
        VarArgs(v)
    }
}

impl<T> Default for VarArgs<T> {
    fn default() -> (r: Self)
        ensures
            r.0@ == Seq::<T>::empty(),
    {
        Self::new()
    }
}

impl<T: TakesArg<D>, D: DynArgLoader> ArgType<D> for VarArgs<T> {
    /// Elements are loaded one after the other until no raw argument is
    /// left; the first error ends the loading.
    open spec fn load_spec(args: Seq<Seq<u8>>) -> Result<(Seq<T::V>, nat), SCError>
        decreases args.len(),
    {
        if args.len() == 0 {
            Ok((Seq::empty(), 0nat))
        } else {
            match T::load_spec(args) {
                Err(e) => Err(e),
                Ok((m, k)) => if 1 <= k <= args.len() {
                    prepend_loaded(seq![m], k, Self::load_spec(args.skip(k as int)))
                } else {
                    Ok((seq![m], k))
                },
            }
        }
    }

    proof fn lemma_load_bound(args: Seq<Seq<u8>>)
        decreases args.len(),
    {
        lemma_var_args_takes_all::<T, D>(args);
    }

    fn load(loader: &mut D, arg_id: ArgId) -> (r: Result<Self, SCError>)
        ensures
            r is Ok ==> final(loader).remaining().len() == 0,
    {
        let mut result_vec: Vec<T> = Vec::new();
        let ghost all = loader.remaining();
        let ghost mut taken: nat = 0;
        proof {
            assert(VarArgs(result_vec)@ =~= Seq::<T::V>::empty());
            assert(all.skip(0) =~= all);
        }
        while loader.has_next()
            invariant
                all == old(loader).remaining(),
                taken <= all.len(),
                loader.remaining() == all.skip(taken as int),
                Self::load_spec(all) == prepend_loaded(
                    VarArgs(result_vec)@,
                    taken,
                    Self::load_spec(loader.remaining()),
                ),
            decreases loader.remaining().len(),
        {
            let ghost before = loader.remaining();
            let ghost acc = VarArgs(result_vec)@;
            proof {
                T::lemma_takes_arg(before);
                lemma_skip_is_suffix(all, taken);
            }
            match T::load(loader, arg_id) {
                Ok(v) => {
                    result_vec.push(v);
                    proof {
                        let k = T::load_spec(before)->Ok_0.1;
                        let m = T::load_spec(before)->Ok_0.0;
                        assert(VarArgs(result_vec)@ =~= acc + seq![m]);
                        lemma_skip_skip(all, taken, k);
                        match Self::load_spec(before.skip(k as int)) {
                            Ok((vs, n)) => {
                                assert(acc + (seq![m] + vs) =~= VarArgs(result_vec)@ + vs);
                            },
                            Err(e) => {},
                        }
                        taken = taken + k;
                    }
                },
                Err(e) => {
                    proof {
                        assert(Self::load_spec(before) == Err::<(Seq<T::V>, nat), SCError>(e));
                        lemma_suffix_transitive(loader.remaining(), before, all);
                    }
                    return Err(e);
                },
            }
        }
        proof {
            let acc = VarArgs(result_vec)@;
            assert(acc + Seq::<T::V>::empty() =~= acc);
            lemma_skip_is_suffix(all, taken);
        }
        Ok(VarArgs(result_vec))
    }
}

impl<T: TakesArg<D>, D: DynArgLoader> TakesArg<D> for VarArgs<T> {
    proof fn lemma_takes_arg(args: Seq<Seq<u8>>) {
        T::lemma_takes_arg(args);
        match T::load_spec(args) {
            Ok((m, k)) => {
                if 1 <= k <= args.len() {
                    let rest = <VarArgs<T> as ArgType<D>>::load_spec(args.skip(k as int));
                    assert(<VarArgs<T> as ArgType<D>>::load_spec(args) == prepend_loaded(
                        seq![m],
                        k,
                        rest,
                    ));
                }
            },
            Err(e) => {},
        }
    }
}

/// Loading a list uses every raw argument: where it succeeds, nothing is
/// left. From no raw argument it gives the empty list.
pub proof fn lemma_var_args_takes_all<T: TakesArg<D>, D: DynArgLoader>(args: Seq<Seq<u8>>)
    ensures
        <VarArgs<T> as ArgType<D>>::load_spec(args) matches Ok((_, k)) ==> k == args.len(),
        args.len() == 0 ==> <VarArgs<T> as ArgType<D>>::load_spec(args) == Ok::<
            (Seq<T::V>, nat),
            SCError,
        >((Seq::empty(), 0nat)),
    decreases args.len(),
{
    if args.len() > 0 {
        T::lemma_takes_arg(args);
        T::lemma_load_bound(args);
        match T::load_spec(args) {
            Ok((m, k)) => {
                lemma_var_args_takes_all::<T, D>(args.skip(k as int));
            },
            Err(e) => {},
        }
    }
}

/// A list of a decodable type holds what the raw arguments denote, one
/// element for each and in their order, where each of them can be decoded.
pub proof fn lemma_var_args_keeps_order<T: Decode, D: DynArgLoader>(args: Seq<Seq<u8>>)
    requires
        forall|i: int| 0 <= i < args.len() ==> (#[trigger] T::top_decoded(args[i])) is Ok,
    ensures
        <VarArgs<T> as ArgType<D>>::load_spec(args) == Ok::<(Seq<T::V>, nat), SCError>(
            (Seq::new(args.len(), |i: int| T::top_decoded(args[i])->Ok_0), args.len()),
        ),
    decreases args.len(),
{
    if args.len() > 0 {
        let rest = args.skip(1);
        assert forall|i: int| 0 <= i < rest.len() implies (#[trigger] T::top_decoded(
            rest[i],
        )) is Ok by {
            assert(rest[i] == args[i + 1]);
        }
        lemma_var_args_keeps_order::<T, D>(rest);
        let first = T::top_decoded(args[0])->Ok_0;
        let tail = Seq::new(rest.len(), |i: int| T::top_decoded(rest[i])->Ok_0);
        let whole = Seq::new(args.len(), |i: int| T::top_decoded(args[i])->Ok_0);
        assert(seq![first] + tail =~= whole);
    } else {
        assert(Seq::new(args.len(), |i: int| T::top_decoded(args[i])->Ok_0) =~= Seq::<
            T::V,
        >::empty());
    }
}

/// At most one argument of a type: present when a raw argument is left.
pub enum OptionalArg<T> {
    Present(T),
    Absent,
}

impl<T: View> View for OptionalArg<T> {
    type V = Option<T::V>;

    open spec fn view(&self) -> Option<T::V> {
        match self {
            OptionalArg::Present(arg) => Some(arg@),
            OptionalArg::Absent => None,
        }
    }
}

impl<T> From<Option<T>> for OptionalArg<T> {
    fn from(v: Option<T>) -> (r: Self) {
        match v {
            Some(arg) => OptionalArg::Present(arg),
            None => OptionalArg::Absent,
        }
    }
}

impl<T> vstd::std_specs::convert::FromSpecImpl<Option<T>> for OptionalArg<T> {
    open spec fn obeys_from_spec() -> bool {
        true
    }

    open spec fn from_spec(v: Option<T>) -> Self {
        match v {
            Some(arg) => OptionalArg::Present(arg),
            None => OptionalArg::Absent,
        }
    }
}

impl<T> OptionalArg<T> {
    /// The same value as an `Option`.
    pub fn into_option(self) -> (r: Option<T>)
        ensures
            r == (match self {
                OptionalArg::Present(arg) => Some(arg),
                OptionalArg::Absent => None,
            }),
    {
        match self {
            OptionalArg::Present(arg) => Some(arg),
            OptionalArg::Absent => None,
        }
    }
}

impl<T: ArgType<D>, D: DynArgLoader> ArgType<D> for OptionalArg<T> {
    /// Nothing is loaded from an empty source; otherwise one value is.
    open spec fn load_spec(args: Seq<Seq<u8>>) -> Result<(Option<T::V>, nat), SCError> {
        if args.len() == 0 {
            Ok((None, 0nat))
        } else {
            match T::load_spec(args) {
                Ok((m, k)) => Ok((Some(m), k)),
                Err(e) => Err(e),
            }
        }
    }

    proof fn lemma_load_bound(args: Seq<Seq<u8>>) {
        T::lemma_load_bound(args);
    }

    fn load(loader: &mut D, arg_id: ArgId) -> (r: Result<Self, SCError>) {
        if loader.has_next() {
            match T::load(loader, arg_id) {
                Ok(arg) => Ok(OptionalArg::Present(arg)),
                Err(e) => Err(e),
            }
        } else {
            proof {
                lemma_skip_is_suffix(loader.remaining(), 0);
                assert(loader.remaining().skip(0) =~= loader.remaining());
            }
            Ok(OptionalArg::Absent)
        }
    }
}

impl<T: TakesArg<D>, D: DynArgLoader> TakesArg<D> for OptionalArg<T> {
    proof fn lemma_takes_arg(args: Seq<Seq<u8>>) {
        T::lemma_takes_arg(args);
    }
}

/// From no raw argument an optional argument is absent; from one raw
/// argument of a decodable type it is present and holds what that argument
/// denotes.
pub proof fn lemma_optional_arg<T: Decode, D: DynArgLoader>(args: Seq<Seq<u8>>)
    ensures
        args.len() == 0 ==> <OptionalArg<T> as ArgType<D>>::load_spec(args) == Ok::<
            (Option<T::V>, nat),
            SCError,
        >((None, 0nat)),
        args.len() == 1 ==> (T::top_decoded(args[0]) matches Ok(m) ==> <OptionalArg<
            T,
        > as ArgType<D>>::load_spec(args) == Ok::<(Option<T::V>, nat), SCError>(
            (Some(m), 1nat),
        )),
{
}

/// The failure of an asynchronous call: the code and the message that the
/// callee gave.
pub struct AsyncCallError {
    pub err_code: i32,
    pub err_msg: Vec<u8>,
}

/// The result of an asynchronous call: what the callee returned, or its
/// failure. A failure is a value, not an error of the loading.
pub enum AsyncCallResult<T> {
    Success(T),
    Failure(AsyncCallError),
}

impl<T: View> View for AsyncCallResult<T> {
    type V = Result<T::V, (i32, Seq<u8>)>;

    open spec fn view(&self) -> Result<T::V, (i32, Seq<u8>)> {
        match self {
            AsyncCallResult::Success(arg) => Ok(arg@),
            AsyncCallResult::Failure(err) => Err((err.err_code, err.err_msg@)),
        }
    }
}

/// What follows the code of an asynchronous call's result: the payload
/// behind code zero, the message behind any other code.
pub open spec fn async_result_after_code<V>(
    err_code: i32,
    payload: Result<(V, nat), SCError>,
    message: Result<(Seq<u8>, nat), SCError>,
) -> Result<(Result<V, (i32, Seq<u8>)>, nat), SCError> {
    if err_code == 0 {
        match payload {
            Ok((m, k)) => Ok((Ok(m), 1 + k)),
            Err(e) => Err(e),
        }
    } else {
        match message {
            Ok((msg, k)) => Ok((Err((err_code, msg)), 1 + k)),
            Err(e) => Err(e),
        }
    }
}

impl<T: ArgType<D>, D: DynArgLoader> ArgType<D> for AsyncCallResult<T> {
    /// The first raw argument is the code, a signed 32-bit number. Behind
    /// code zero stands the payload, behind any other code the message.
    open spec fn load_spec(args: Seq<Seq<u8>>) -> Result<
        (Result<T::V, (i32, Seq<u8>)>, nat),
        SCError,
    > {
        match <i32 as ArgType<D>>::load_spec(args) {
            Err(e) => Err(e),
            Ok((err_code, _)) => async_result_after_code(
                err_code,
                T::load_spec(args.skip(1)),
                <Vec<u8> as ArgType<D>>::load_spec(args.skip(1)),
            ),
        }
    }

    proof fn lemma_load_bound(args: Seq<Seq<u8>>) {
        if args.len() > 0 {
            T::lemma_load_bound(args.skip(1));
        }
    }

    fn load(loader: &mut D, arg_id: ArgId) -> (r: Result<Self, SCError>) {
        let ghost all = loader.remaining();
        let err_code = match <i32 as ArgType<D>>::load(loader, arg_id) {
            Ok(code) => code,
            Err(e) => {
                return Err(e);
            },
        };
        let ghost rest = loader.remaining();
        proof {
            lemma_skip_is_suffix(all, 1);
        }
        if err_code == 0 {
            match T::load(loader, arg_id) {
                Ok(arg) => {
                    proof {
                        let k = T::load_spec(rest)->Ok_0.1;
                        lemma_skip_skip(all, 1, k);
                        lemma_skip_is_suffix(all, 1 + k);
                    }
                    Ok(AsyncCallResult::Success(arg))
                },
                Err(e) => {
                    proof {
                        lemma_suffix_transitive(loader.remaining(), rest, all);
                    }
                    Err(e)
                },
            }
        } else {
            match <Vec<u8> as ArgType<D>>::load(loader, arg_id) {
                Ok(err_msg) => {
                    proof {
                        lemma_skip_skip(all, 1, 1);
                        lemma_skip_is_suffix(all, 2);
                    }
                    Ok(AsyncCallResult::Failure(AsyncCallError { err_code, err_msg }))
                },
                Err(e) => {
                    proof {
                        lemma_suffix_transitive(loader.remaining(), rest, all);
                    }
                    Err(e)
                },
            }
        }
    }
}

impl<T: ArgType<D>, D: DynArgLoader> TakesArg<D> for AsyncCallResult<T> {
    proof fn lemma_takes_arg(args: Seq<Seq<u8>>) {
    }
}

/// The result of an asynchronous call is read by its code: behind code
/// zero the payload is loaded and makes a success; behind any other code the
/// next raw argument is the message, and code and message make a failure.
pub proof fn lemma_async_call_result<T: ArgType<D>, D: DynArgLoader>(args: Seq<Seq<u8>>)
    requires
        args.len() >= 1,
        <i32 as Decode>::top_decoded(args[0]) is Ok,
    ensures
        ({
            let err_code = <i32 as Decode>::top_decoded(args[0])->Ok_0;
            let loaded = <AsyncCallResult<T> as ArgType<D>>::load_spec(args);
            &&& err_code == 0 ==> (T::load_spec(args.skip(1)) matches Ok((m, k)) ==> loaded
                == Ok::<(Result<T::V, (i32, Seq<u8>)>, nat), SCError>((Ok(m), 1 + k)))
            &&& err_code != 0 && args.len() >= 2 ==> loaded == Ok::<
                (Result<T::V, (i32, Seq<u8>)>, nat),
                SCError,
            >((Err((err_code, args[1])), 2nat))
        }),
{
    if args.len() >= 2 {
        assert(args.skip(1)[0] == args[1]);
    }
}

/// Raw arguments held in memory, handed out from the first on.
pub struct RawArgs {
    args: Vec<Vec<u8>>,
    next: usize,
}

impl RawArgs {
    #[verifier::type_invariant]
    spec fn well_formed(self) -> bool {
        self.next <= self.args@.len()
    }

    /// A source that holds `args`, none of them handed out.
    pub fn new(args: Vec<Vec<u8>>) -> (r: RawArgs)
        ensures
            r.remaining() == Seq::new(args@.len(), |i: int| args@[i]@),
    {
        let r = RawArgs { args, next: 0 };
        proof {
            assert(r.remaining() =~= Seq::new(args@.len(), |i: int| args@[i]@));
        }
        r
    }
}

impl DynArgLoader for RawArgs {
    closed spec fn remaining(&self) -> Seq<Seq<u8>> {
        Seq::new((self.args@.len() - self.next) as nat, |i: int| self.args@[self.next + i]@)
    }

    fn has_next(&self) -> (r: bool) {
        proof {
            use_type_invariant(self);
        }
        self.next < self.args.len()
    }

    fn next_arg(&mut self, arg_id: ArgId) -> (r: Option<Vec<u8>>) {
        proof {
            use_type_invariant(&*self);
        }
        if self.next < self.args.len() {
            let bytes = slice_to_vec(self.args[self.next].as_slice());
            self.next = self.next + 1;
            proof {
                assert(self.remaining() =~= old(self).remaining().skip(1));
            }
            Some(bytes)
        } else {
            None
        }
    }
}

} // verus!
