//! Groups of a fixed number of arguments, from two to sixteen, each
//! argument of its own type.

use vstd::prelude::*;
use crate::arg_types::{
    lemma_skip_is_suffix, lemma_skip_skip, lemma_suffix_transitive, ArgId, ArgType, DynArgLoader,
    TakesArg,
};
use crate::codec::Decode;
use crate::error::SCError;

verus! {

/// Loads the next part of a group from `loader`, which has handed out the
/// first `taken` of the raw arguments `all`.
fn load_part<T: ArgType<D>, D: DynArgLoader>(
    loader: &mut D,
    arg_id: ArgId,
    Ghost(all): Ghost<Seq<Seq<u8>>>,
    Ghost(taken): Ghost<nat>,
) -> (r: Result<T, SCError>)
    requires
        taken <= all.len(),
        old(loader).remaining() == all.skip(taken as int),
    ensures
        final(loader).remaining().is_suffix_of(all),
        match r {
            Ok(v) => {
                &&& T::load_spec(all.skip(taken as int)) matches Ok((m, k))
                &&& m == v@
                &&& taken + k <= all.len()
                &&& final(loader).remaining() == all.skip((taken + k) as int)
            },
            Err(e) => T::load_spec(all.skip(taken as int)) == Err::<(T::V, nat), SCError>(e),
        },
{
    let r = T::load(loader, arg_id);
    proof {
        lemma_skip_is_suffix(all, taken);
        lemma_suffix_transitive(loader.remaining(), all.skip(taken as int), all);
        if let Ok((_, k)) = T::load_spec(all.skip(taken as int)) {
            if r is Ok {
                lemma_skip_skip(all, taken, k);
            }
        }
    }
    r
}

/// Two arguments, each of its own type, loaded in their order.
pub struct MultiArg2<T0, T1>(pub (T0, T1));

impl<T0: View, T1: View> View for MultiArg2<T0, T1> {
    type V = (T0::V, T1::V);

    open spec fn view(&self) -> (T0::V, T1::V) {
        (self.0.0@, self.0.1@)
    }
}

impl<T0, T1> MultiArg2<T0, T1> {
    /// The arguments as a tuple.
    pub fn into_tuple(self) -> (r: (T0, T1))
        ensures
            r == self.0,
    {
        self.0
    }
}

impl<T0: ArgType<D>, T1: ArgType<D>, D: DynArgLoader> ArgType<D> for MultiArg2<T0, T1> {
    /// Each argument is loaded from what the ones before it left; the
    /// first error ends the loading.
    open spec fn load_spec(args: Seq<Seq<u8>>) -> Result<((T0::V, T1::V), nat), SCError> {
        let r0 = T0::load_spec(args);
        let n1 = r0->Ok_0.1;
        let r1 = T1::load_spec(args.skip(n1 as int));
        let n2 = n1 + r1->Ok_0.1;
        if r0 is Err {
            Err(r0->Err_0)
        } else if r1 is Err {
            Err(r1->Err_0)
        } else {
            Ok(((r0->Ok_0.0, r1->Ok_0.0), n2))
        }
    }

    proof fn lemma_load_bound(args: Seq<Seq<u8>>) {
        T0::lemma_load_bound(args);
        let n1 = T0::load_spec(args)->Ok_0.1;
        T1::lemma_load_bound(args.skip(n1 as int));
    }

    fn load(loader: &mut D, arg_id: ArgId) -> (r: Result<Self, SCError>) {
        let ghost all = loader.remaining();
        proof {
            assert(all.skip(0) =~= all);
        }
        let a0 = load_part::<T0, D>(loader, arg_id, Ghost(all), Ghost(0))?;
        let ghost n1 = T0::load_spec(all)->Ok_0.1;
        let a1 = load_part::<T1, D>(loader, arg_id, Ghost(all), Ghost(n1))?;
        Ok(MultiArg2((a0, a1)))
    }
}

impl<T0: TakesArg<D>, T1: ArgType<D>, D: DynArgLoader> TakesArg<D> for MultiArg2<T0, T1> {
    proof fn lemma_takes_arg(args: Seq<Seq<u8>>) {
        T0::lemma_takes_arg(args);
    }
}

/// Loading two decodable arguments uses exactly two raw arguments
/// where that many are there, however many follow; with fewer the
/// loading ends with a wrong number of arguments. So the loading leaves
/// nothing behind just where exactly two raw arguments were given.
pub proof fn lemma_multi_arg2_count<T0: Decode, T1: Decode, D: DynArgLoader>(args: Seq<Seq<u8>>)
    requires
        args.len() > 0 ==> T0::top_decoded(args[0]) is Ok,
        args.len() > 1 ==> T1::top_decoded(args[1]) is Ok,
    ensures
        ({
            let loaded = <MultiArg2<T0, T1> as ArgType<D>>::load_spec(args);
            &&& args.len() >= 2 ==> (loaded matches Ok((_, k)) && k == 2)
            &&& args.len() < 2 ==> loaded is Err && loaded->Err_0 == SCError::ArgWrongNumber
            &&& (loaded matches Ok((_, k)) && k == args.len()) <==> args.len() == 2
        }),
{
    if args.len() > 1 {
        assert(args.skip(1)[0] == args[1]);
    }
}

/// Three arguments, each of its own type, loaded in their order.
pub struct MultiArg3<T0, T1, T2>(pub (T0, T1, T2));

impl<T0: View, T1: View, T2: View> View for MultiArg3<T0, T1, T2> {
    type V = (T0::V, T1::V, T2::V);

    open spec fn view(&self) -> (T0::V, T1::V, T2::V) {
        (self.0.0@, self.0.1@, self.0.2@)
    }
}

impl<T0, T1, T2> MultiArg3<T0, T1, T2> {
    /// The arguments as a tuple.
    pub fn into_tuple(self) -> (r: (T0, T1, T2))
        ensures
            r == self.0,
    {
        self.0
    }
}

impl<
    T0: ArgType<D>, T1: ArgType<D>, T2: ArgType<D>, D: DynArgLoader,
> ArgType<D> for MultiArg3<T0, T1, T2> {
    /// Each argument is loaded from what the ones before it left; the
    /// first error ends the loading.
    open spec fn load_spec(args: Seq<Seq<u8>>) -> Result<((T0::V, T1::V, T2::V), nat), SCError> {
        let r0 = T0::load_spec(args);
        let n1 = r0->Ok_0.1;
        let r1 = T1::load_spec(args.skip(n1 as int));
        let n2 = n1 + r1->Ok_0.1;
        let r2 = T2::load_spec(args.skip(n2 as int));
        let n3 = n2 + r2->Ok_0.1;
        if r0 is Err {
            Err(r0->Err_0)
        } else if r1 is Err {
            Err(r1->Err_0)
        } else if r2 is Err {
            Err(r2->Err_0)
        } else {
            Ok(((r0->Ok_0.0, r1->Ok_0.0, r2->Ok_0.0), n3))
        }
    }

    proof fn lemma_load_bound(args: Seq<Seq<u8>>) {
        T0::lemma_load_bound(args);
        let n1 = T0::load_spec(args)->Ok_0.1;
        T1::lemma_load_bound(args.skip(n1 as int));
        let n2 = n1 + T1::load_spec(args.skip(n1 as int))->Ok_0.1;
        T2::lemma_load_bound(args.skip(n2 as int));
    }

    fn load(loader: &mut D, arg_id: ArgId) -> (r: Result<Self, SCError>) {
        let ghost all = loader.remaining();
        proof {
            assert(all.skip(0) =~= all);
        }
        let a0 = load_part::<T0, D>(loader, arg_id, Ghost(all), Ghost(0))?;
        let ghost n1 = T0::load_spec(all)->Ok_0.1;
        let a1 = load_part::<T1, D>(loader, arg_id, Ghost(all), Ghost(n1))?;
        let ghost n2 = n1 + T1::load_spec(all.skip(n1 as int))->Ok_0.1;
        let a2 = load_part::<T2, D>(loader, arg_id, Ghost(all), Ghost(n2))?;
        Ok(MultiArg3((a0, a1, a2)))
    }
}

impl<
    T0: TakesArg<D>, T1: ArgType<D>, T2: ArgType<D>, D: DynArgLoader,
> TakesArg<D> for MultiArg3<T0, T1, T2> {
    proof fn lemma_takes_arg(args: Seq<Seq<u8>>) {
        T0::lemma_takes_arg(args);
    }
}

/// Loading three decodable arguments uses exactly three raw arguments
/// where that many are there, however many follow; with fewer the
/// loading ends with a wrong number of arguments. So the loading leaves
/// nothing behind just where exactly three raw arguments were given.
pub proof fn lemma_multi_arg3_count<
    T0: Decode, T1: Decode, T2: Decode, D: DynArgLoader,
>(args: Seq<Seq<u8>>)
    requires
        args.len() > 0 ==> T0::top_decoded(args[0]) is Ok,
        args.len() > 1 ==> T1::top_decoded(args[1]) is Ok,
        args.len() > 2 ==> T2::top_decoded(args[2]) is Ok,
    ensures
        ({
            let loaded = <MultiArg3<T0, T1, T2> as ArgType<D>>::load_spec(args);
            &&& args.len() >= 3 ==> (loaded matches Ok((_, k)) && k == 3)
            &&& args.len() < 3 ==> loaded is Err && loaded->Err_0 == SCError::ArgWrongNumber
            &&& (loaded matches Ok((_, k)) && k == args.len()) <==> args.len() == 3
        }),
{
    if args.len() > 1 {
        assert(args.skip(1)[0] == args[1]);
    }
    if args.len() > 2 {
        assert(args.skip(2)[0] == args[2]);
    }
}

/// Four arguments, each of its own type, loaded in their order.
pub struct MultiArg4<T0, T1, T2, T3>(pub (T0, T1, T2, T3));

impl<T0: View, T1: View, T2: View, T3: View> View for MultiArg4<T0, T1, T2, T3> {
    type V = (T0::V, T1::V, T2::V, T3::V);

    open spec fn view(&self) -> (T0::V, T1::V, T2::V, T3::V) {
        (self.0.0@, self.0.1@, self.0.2@, self.0.3@)
    }
}

impl<T0, T1, T2, T3> MultiArg4<T0, T1, T2, T3> {
    /// The arguments as a tuple.
    pub fn into_tuple(self) -> (r: (T0, T1, T2, T3))
        ensures
            r == self.0,
    {
        self.0
    }
}

impl<
    T0: ArgType<D>, T1: ArgType<D>, T2: ArgType<D>, T3: ArgType<D>, D: DynArgLoader,
> ArgType<D> for MultiArg4<T0, T1, T2, T3> {
    /// Each argument is loaded from what the ones before it left; the
    /// first error ends the loading.
    open spec fn load_spec(args: Seq<Seq<u8>>) -> Result<((
        T0::V, T1::V, T2::V, T3::V,
    ), nat), SCError> {
        let r0 = T0::load_spec(args);
        let n1 = r0->Ok_0.1;
        let r1 = T1::load_spec(args.skip(n1 as int));
        let n2 = n1 + r1->Ok_0.1;
        let r2 = T2::load_spec(args.skip(n2 as int));
        let n3 = n2 + r2->Ok_0.1;
        let r3 = T3::load_spec(args.skip(n3 as int));
        let n4 = n3 + r3->Ok_0.1;
        if r0 is Err {
            Err(r0->Err_0)
        } else if r1 is Err {
            Err(r1->Err_0)
        } else if r2 is Err {
            Err(r2->Err_0)
        } else if r3 is Err {
            Err(r3->Err_0)
        } else {
            Ok(((r0->Ok_0.0, r1->Ok_0.0, r2->Ok_0.0, r3->Ok_0.0), n4))
        }
    }

    proof fn lemma_load_bound(args: Seq<Seq<u8>>) {
        T0::lemma_load_bound(args);
        let n1 = T0::load_spec(args)->Ok_0.1;
        T1::lemma_load_bound(args.skip(n1 as int));
        let n2 = n1 + T1::load_spec(args.skip(n1 as int))->Ok_0.1;
        T2::lemma_load_bound(args.skip(n2 as int));
        let n3 = n2 + T2::load_spec(args.skip(n2 as int))->Ok_0.1;
        T3::lemma_load_bound(args.skip(n3 as int));
    }

    fn load(loader: &mut D, arg_id: ArgId) -> (r: Result<Self, SCError>) {
        let ghost all = loader.remaining();
        proof {
            assert(all.skip(0) =~= all);
        }
        let a0 = load_part::<T0, D>(loader, arg_id, Ghost(all), Ghost(0))?;
        let ghost n1 = T0::load_spec(all)->Ok_0.1;
        let a1 = load_part::<T1, D>(loader, arg_id, Ghost(all), Ghost(n1))?;
        let ghost n2 = n1 + T1::load_spec(all.skip(n1 as int))->Ok_0.1;
        let a2 = load_part::<T2, D>(loader, arg_id, Ghost(all), Ghost(n2))?;
        let ghost n3 = n2 + T2::load_spec(all.skip(n2 as int))->Ok_0.1;
        let a3 = load_part::<T3, D>(loader, arg_id, Ghost(all), Ghost(n3))?;
        Ok(MultiArg4((a0, a1, a2, a3)))
    }
}

impl<
    T0: TakesArg<D>, T1: ArgType<D>, T2: ArgType<D>, T3: ArgType<D>, D: DynArgLoader,
> TakesArg<D> for MultiArg4<T0, T1, T2, T3> {
    proof fn lemma_takes_arg(args: Seq<Seq<u8>>) {
        T0::lemma_takes_arg(args);
    }
}

/// Loading four decodable arguments uses exactly four raw arguments
/// where that many are there, however many follow; with fewer the
/// loading ends with a wrong number of arguments. So the loading leaves
/// nothing behind just where exactly four raw arguments were given.
pub proof fn lemma_multi_arg4_count<
    T0: Decode, T1: Decode, T2: Decode, T3: Decode, D: DynArgLoader,
>(args: Seq<Seq<u8>>)
    requires
        args.len() > 0 ==> T0::top_decoded(args[0]) is Ok,
        args.len() > 1 ==> T1::top_decoded(args[1]) is Ok,
        args.len() > 2 ==> T2::top_decoded(args[2]) is Ok,
        args.len() > 3 ==> T3::top_decoded(args[3]) is Ok,
    ensures
        ({
            let loaded = <MultiArg4<T0, T1, T2, T3> as ArgType<D>>::load_spec(args);
            &&& args.len() >= 4 ==> (loaded matches Ok((_, k)) && k == 4)
            &&& args.len() < 4 ==> loaded is Err && loaded->Err_0 == SCError::ArgWrongNumber
            &&& (loaded matches Ok((_, k)) && k == args.len()) <==> args.len() == 4
        }),
{
    if args.len() > 1 {
        assert(args.skip(1)[0] == args[1]);
    }
    if args.len() > 2 {
        assert(args.skip(2)[0] == args[2]);
    }
    if args.len() > 3 {
        assert(args.skip(3)[0] == args[3]);
    }
}

/// Five arguments, each of its own type, loaded in their order.
pub struct MultiArg5<T0, T1, T2, T3, T4>(pub (T0, T1, T2, T3, T4));

impl<T0: View, T1: View, T2: View, T3: View, T4: View> View for MultiArg5<T0, T1, T2, T3, T4> {
    type V = (T0::V, T1::V, T2::V, T3::V, T4::V);

    open spec fn view(&self) -> (T0::V, T1::V, T2::V, T3::V, T4::V) {
        (self.0.0@, self.0.1@, self.0.2@, self.0.3@, self.0.4@)
    }
}

impl<T0, T1, T2, T3, T4> MultiArg5<T0, T1, T2, T3, T4> {
    /// The arguments as a tuple.
    pub fn into_tuple(self) -> (r: (T0, T1, T2, T3, T4))
        ensures
            r == self.0,
    {
        self.0
    }
}

impl<
    T0: ArgType<D>, T1: ArgType<D>, T2: ArgType<D>, T3: ArgType<D>, T4: ArgType<D>,
    D: DynArgLoader,
> ArgType<D> for MultiArg5<T0, T1, T2, T3, T4> {
    /// Each argument is loaded from what the ones before it left; the
    /// first error ends the loading.
    open spec fn load_spec(args: Seq<Seq<u8>>) -> Result<((
        T0::V, T1::V, T2::V, T3::V, T4::V,
    ), nat), SCError> {
        let r0 = T0::load_spec(args);
        let n1 = r0->Ok_0.1;
        let r1 = T1::load_spec(args.skip(n1 as int));
        let n2 = n1 + r1->Ok_0.1;
        let r2 = T2::load_spec(args.skip(n2 as int));
        let n3 = n2 + r2->Ok_0.1;
        let r3 = T3::load_spec(args.skip(n3 as int));
        let n4 = n3 + r3->Ok_0.1;
        let r4 = T4::load_spec(args.skip(n4 as int));
        let n5 = n4 + r4->Ok_0.1;
        if r0 is Err {
            Err(r0->Err_0)
        } else if r1 is Err {
            Err(r1->Err_0)
        } else if r2 is Err {
            Err(r2->Err_0)
        } else if r3 is Err {
            Err(r3->Err_0)
        } else if r4 is Err {
            Err(r4->Err_0)
        } else {
            Ok(((r0->Ok_0.0, r1->Ok_0.0, r2->Ok_0.0, r3->Ok_0.0, r4->Ok_0.0), n5))
        }
    }

    proof fn lemma_load_bound(args: Seq<Seq<u8>>) {
        T0::lemma_load_bound(args);
        let n1 = T0::load_spec(args)->Ok_0.1;
        T1::lemma_load_bound(args.skip(n1 as int));
        let n2 = n1 + T1::load_spec(args.skip(n1 as int))->Ok_0.1;
        T2::lemma_load_bound(args.skip(n2 as int));
        let n3 = n2 + T2::load_spec(args.skip(n2 as int))->Ok_0.1;
        T3::lemma_load_bound(args.skip(n3 as int));
        let n4 = n3 + T3::load_spec(args.skip(n3 as int))->Ok_0.1;
        T4::lemma_load_bound(args.skip(n4 as int));
    }

    fn load(loader: &mut D, arg_id: ArgId) -> (r: Result<Self, SCError>) {
        let ghost all = loader.remaining();
        proof {
            assert(all.skip(0) =~= all);
        }
        let a0 = load_part::<T0, D>(loader, arg_id, Ghost(all), Ghost(0))?;
        let ghost n1 = T0::load_spec(all)->Ok_0.1;
        let a1 = load_part::<T1, D>(loader, arg_id, Ghost(all), Ghost(n1))?;
        let ghost n2 = n1 + T1::load_spec(all.skip(n1 as int))->Ok_0.1;
        let a2 = load_part::<T2, D>(loader, arg_id, Ghost(all), Ghost(n2))?;
        let ghost n3 = n2 + T2::load_spec(all.skip(n2 as int))->Ok_0.1;
        let a3 = load_part::<T3, D>(loader, arg_id, Ghost(all), Ghost(n3))?;
        let ghost n4 = n3 + T3::load_spec(all.skip(n3 as int))->Ok_0.1;
        let a4 = load_part::<T4, D>(loader, arg_id, Ghost(all), Ghost(n4))?;
        Ok(MultiArg5((a0, a1, a2, a3, a4)))
    }
}

impl<
    T0: TakesArg<D>, T1: ArgType<D>, T2: ArgType<D>, T3: ArgType<D>, T4: ArgType<D>,
    D: DynArgLoader,
> TakesArg<D> for MultiArg5<T0, T1, T2, T3, T4> {
    proof fn lemma_takes_arg(args: Seq<Seq<u8>>) {
        T0::lemma_takes_arg(args);
    }
}

/// Loading five decodable arguments uses exactly five raw arguments
/// where that many are there, however many follow; with fewer the
/// loading ends with a wrong number of arguments. So the loading leaves
/// nothing behind just where exactly five raw arguments were given.
pub proof fn lemma_multi_arg5_count<
    T0: Decode, T1: Decode, T2: Decode, T3: Decode, T4: Decode, D: DynArgLoader,
>(args: Seq<Seq<u8>>)
    requires
        args.len() > 0 ==> T0::top_decoded(args[0]) is Ok,
        args.len() > 1 ==> T1::top_decoded(args[1]) is Ok,
        args.len() > 2 ==> T2::top_decoded(args[2]) is Ok,
        args.len() > 3 ==> T3::top_decoded(args[3]) is Ok,
        args.len() > 4 ==> T4::top_decoded(args[4]) is Ok,
    ensures
        ({
            let loaded = <MultiArg5<T0, T1, T2, T3, T4> as ArgType<D>>::load_spec(args);
            &&& args.len() >= 5 ==> (loaded matches Ok((_, k)) && k == 5)
            &&& args.len() < 5 ==> loaded is Err && loaded->Err_0 == SCError::ArgWrongNumber
            &&& (loaded matches Ok((_, k)) && k == args.len()) <==> args.len() == 5
        }),
{
    if args.len() > 1 {
        assert(args.skip(1)[0] == args[1]);
    }
    if args.len() > 2 {
        assert(args.skip(2)[0] == args[2]);
    }
    if args.len() > 3 {
        assert(args.skip(3)[0] == args[3]);
    }
    if args.len() > 4 {
        assert(args.skip(4)[0] == args[4]);
    }
}

/// Six arguments, each of its own type, loaded in their order.
pub struct MultiArg6<T0, T1, T2, T3, T4, T5>(pub (T0, T1, T2, T3, T4, T5));

impl<
    T0: View, T1: View, T2: View, T3: View, T4: View, T5: View,
> View for MultiArg6<T0, T1, T2, T3, T4, T5> {
    type V = (T0::V, T1::V, T2::V, T3::V, T4::V, T5::V);

    open spec fn view(&self) -> (T0::V, T1::V, T2::V, T3::V, T4::V, T5::V) {
        (self.0.0@, self.0.1@, self.0.2@, self.0.3@, self.0.4@, self.0.5@)
    }
}

impl<T0, T1, T2, T3, T4, T5> MultiArg6<T0, T1, T2, T3, T4, T5> {
    /// The arguments as a tuple.
    pub fn into_tuple(self) -> (r: (T0, T1, T2, T3, T4, T5))
        ensures
            r == self.0,
    {
        self.0
    }
}

impl<
    T0: ArgType<D>, T1: ArgType<D>, T2: ArgType<D>, T3: ArgType<D>, T4: ArgType<D>, T5: ArgType<D>,
    D: DynArgLoader,
> ArgType<D> for MultiArg6<T0, T1, T2, T3, T4, T5> {
    /// Each argument is loaded from what the ones before it left; the
    /// first error ends the loading.
    open spec fn load_spec(args: Seq<Seq<u8>>) -> Result<((
        T0::V, T1::V, T2::V, T3::V, T4::V, T5::V,
    ), nat), SCError> {
        let r0 = T0::load_spec(args);
        let n1 = r0->Ok_0.1;
        let r1 = T1::load_spec(args.skip(n1 as int));
        let n2 = n1 + r1->Ok_0.1;
        let r2 = T2::load_spec(args.skip(n2 as int));
        let n3 = n2 + r2->Ok_0.1;
        let r3 = T3::load_spec(args.skip(n3 as int));
        let n4 = n3 + r3->Ok_0.1;
        let r4 = T4::load_spec(args.skip(n4 as int));
        let n5 = n4 + r4->Ok_0.1;
        let r5 = T5::load_spec(args.skip(n5 as int));
        let n6 = n5 + r5->Ok_0.1;
        if r0 is Err {
            Err(r0->Err_0)
        } else if r1 is Err {
            Err(r1->Err_0)
        } else if r2 is Err {
            Err(r2->Err_0)
        } else if r3 is Err {
            Err(r3->Err_0)
        } else if r4 is Err {
            Err(r4->Err_0)
        } else if r5 is Err {
            Err(r5->Err_0)
        } else {
            Ok(((r0->Ok_0.0, r1->Ok_0.0, r2->Ok_0.0, r3->Ok_0.0, r4->Ok_0.0, r5->Ok_0.0), n6))
        }
    }

    proof fn lemma_load_bound(args: Seq<Seq<u8>>) {
        T0::lemma_load_bound(args);
        let n1 = T0::load_spec(args)->Ok_0.1;
        T1::lemma_load_bound(args.skip(n1 as int));
        let n2 = n1 + T1::load_spec(args.skip(n1 as int))->Ok_0.1;
        T2::lemma_load_bound(args.skip(n2 as int));
        let n3 = n2 + T2::load_spec(args.skip(n2 as int))->Ok_0.1;
        T3::lemma_load_bound(args.skip(n3 as int));
        let n4 = n3 + T3::load_spec(args.skip(n3 as int))->Ok_0.1;
        T4::lemma_load_bound(args.skip(n4 as int));
        let n5 = n4 + T4::load_spec(args.skip(n4 as int))->Ok_0.1;
        T5::lemma_load_bound(args.skip(n5 as int));
    }

    fn load(loader: &mut D, arg_id: ArgId) -> (r: Result<Self, SCError>) {
        let ghost all = loader.remaining();
        proof {
            assert(all.skip(0) =~= all);
        }
        let a0 = load_part::<T0, D>(loader, arg_id, Ghost(all), Ghost(0))?;
        let ghost n1 = T0::load_spec(all)->Ok_0.1;
        let a1 = load_part::<T1, D>(loader, arg_id, Ghost(all), Ghost(n1))?;
        let ghost n2 = n1 + T1::load_spec(all.skip(n1 as int))->Ok_0.1;
        let a2 = load_part::<T2, D>(loader, arg_id, Ghost(all), Ghost(n2))?;
        let ghost n3 = n2 + T2::load_spec(all.skip(n2 as int))->Ok_0.1;
        let a3 = load_part::<T3, D>(loader, arg_id, Ghost(all), Ghost(n3))?;
        let ghost n4 = n3 + T3::load_spec(all.skip(n3 as int))->Ok_0.1;
        let a4 = load_part::<T4, D>(loader, arg_id, Ghost(all), Ghost(n4))?;
        let ghost n5 = n4 + T4::load_spec(all.skip(n4 as int))->Ok_0.1;
        let a5 = load_part::<T5, D>(loader, arg_id, Ghost(all), Ghost(n5))?;
        Ok(MultiArg6((a0, a1, a2, a3, a4, a5)))
    }
}

impl<
    T0: TakesArg<D>, T1: ArgType<D>, T2: ArgType<D>, T3: ArgType<D>, T4: ArgType<D>,
    T5: ArgType<D>, D: DynArgLoader,
> TakesArg<D> for MultiArg6<T0, T1, T2, T3, T4, T5> {
    proof fn lemma_takes_arg(args: Seq<Seq<u8>>) {
        T0::lemma_takes_arg(args);
    }
}

/// Loading six decodable arguments uses exactly six raw arguments
/// where that many are there, however many follow; with fewer the
/// loading ends with a wrong number of arguments. So the loading leaves
/// nothing behind just where exactly six raw arguments were given.
pub proof fn lemma_multi_arg6_count<
    T0: Decode, T1: Decode, T2: Decode, T3: Decode, T4: Decode, T5: Decode, D: DynArgLoader,
>(args: Seq<Seq<u8>>)
    requires
        args.len() > 0 ==> T0::top_decoded(args[0]) is Ok,
        args.len() > 1 ==> T1::top_decoded(args[1]) is Ok,
        args.len() > 2 ==> T2::top_decoded(args[2]) is Ok,
        args.len() > 3 ==> T3::top_decoded(args[3]) is Ok,
        args.len() > 4 ==> T4::top_decoded(args[4]) is Ok,
        args.len() > 5 ==> T5::top_decoded(args[5]) is Ok,
    ensures
        ({
            let loaded = <MultiArg6<T0, T1, T2, T3, T4, T5> as ArgType<D>>::load_spec(args);
            &&& args.len() >= 6 ==> (loaded matches Ok((_, k)) && k == 6)
            &&& args.len() < 6 ==> loaded is Err && loaded->Err_0 == SCError::ArgWrongNumber
            &&& (loaded matches Ok((_, k)) && k == args.len()) <==> args.len() == 6
        }),
{
    if args.len() > 1 {
        assert(args.skip(1)[0] == args[1]);
    }
    if args.len() > 2 {
        assert(args.skip(2)[0] == args[2]);
    }
    if args.len() > 3 {
        assert(args.skip(3)[0] == args[3]);
    }
    if args.len() > 4 {
        assert(args.skip(4)[0] == args[4]);
    }
    if args.len() > 5 {
        assert(args.skip(5)[0] == args[5]);
    }
}

/// Seven arguments, each of its own type, loaded in their order.
pub struct MultiArg7<T0, T1, T2, T3, T4, T5, T6>(pub (T0, T1, T2, T3, T4, T5, T6));

impl<
    T0: View, T1: View, T2: View, T3: View, T4: View, T5: View, T6: View,
> View for MultiArg7<T0, T1, T2, T3, T4, T5, T6> {
    type V = (T0::V, T1::V, T2::V, T3::V, T4::V, T5::V, T6::V);

    open spec fn view(&self) -> (T0::V, T1::V, T2::V, T3::V, T4::V, T5::V, T6::V) {
        (self.0.0@, self.0.1@, self.0.2@, self.0.3@, self.0.4@, self.0.5@, self.0.6@)
    }
}

impl<T0, T1, T2, T3, T4, T5, T6> MultiArg7<T0, T1, T2, T3, T4, T5, T6> {
    /// The arguments as a tuple.
    pub fn into_tuple(self) -> (r: (T0, T1, T2, T3, T4, T5, T6))
        ensures
            r == self.0,
    {
        self.0
    }
}

impl<
    T0: ArgType<D>, T1: ArgType<D>, T2: ArgType<D>, T3: ArgType<D>, T4: ArgType<D>, T5: ArgType<D>,
    T6: ArgType<D>, D: DynArgLoader,
> ArgType<D> for MultiArg7<T0, T1, T2, T3, T4, T5, T6> {
    /// Each argument is loaded from what the ones before it left; the
    /// first error ends the loading.
    open spec fn load_spec(args: Seq<Seq<u8>>) -> Result<((
        T0::V, T1::V, T2::V, T3::V, T4::V, T5::V, T6::V,
    ), nat), SCError> {
        let r0 = T0::load_spec(args);
        let n1 = r0->Ok_0.1;
        let r1 = T1::load_spec(args.skip(n1 as int));
        let n2 = n1 + r1->Ok_0.1;
        let r2 = T2::load_spec(args.skip(n2 as int));
        let n3 = n2 + r2->Ok_0.1;
        let r3 = T3::load_spec(args.skip(n3 as int));
        let n4 = n3 + r3->Ok_0.1;
        let r4 = T4::load_spec(args.skip(n4 as int));
        let n5 = n4 + r4->Ok_0.1;
        let r5 = T5::load_spec(args.skip(n5 as int));
        let n6 = n5 + r5->Ok_0.1;
        let r6 = T6::load_spec(args.skip(n6 as int));
        let n7 = n6 + r6->Ok_0.1;
        if r0 is Err {
            Err(r0->Err_0)
        } else if r1 is Err {
            Err(r1->Err_0)
        } else if r2 is Err {
            Err(r2->Err_0)
        } else if r3 is Err {
            Err(r3->Err_0)
        } else if r4 is Err {
            Err(r4->Err_0)
        } else if r5 is Err {
            Err(r5->Err_0)
        } else if r6 is Err {
            Err(r6->Err_0)
        } else {
            Ok(((
                r0->Ok_0.0, r1->Ok_0.0, r2->Ok_0.0, r3->Ok_0.0, r4->Ok_0.0, r5->Ok_0.0, r6->Ok_0.0,
            ), n7))
        }
    }

    proof fn lemma_load_bound(args: Seq<Seq<u8>>) {
        T0::lemma_load_bound(args);
        let n1 = T0::load_spec(args)->Ok_0.1;
        T1::lemma_load_bound(args.skip(n1 as int));
        let n2 = n1 + T1::load_spec(args.skip(n1 as int))->Ok_0.1;
        T2::lemma_load_bound(args.skip(n2 as int));
        let n3 = n2 + T2::load_spec(args.skip(n2 as int))->Ok_0.1;
        T3::lemma_load_bound(args.skip(n3 as int));
        let n4 = n3 + T3::load_spec(args.skip(n3 as int))->Ok_0.1;
        T4::lemma_load_bound(args.skip(n4 as int));
        let n5 = n4 + T4::load_spec(args.skip(n4 as int))->Ok_0.1;
        T5::lemma_load_bound(args.skip(n5 as int));
        let n6 = n5 + T5::load_spec(args.skip(n5 as int))->Ok_0.1;
        T6::lemma_load_bound(args.skip(n6 as int));
    }

    fn load(loader: &mut D, arg_id: ArgId) -> (r: Result<Self, SCError>) {
        let ghost all = loader.remaining();
        proof {
            assert(all.skip(0) =~= all);
        }
        let a0 = load_part::<T0, D>(loader, arg_id, Ghost(all), Ghost(0))?;
        let ghost n1 = T0::load_spec(all)->Ok_0.1;
        let a1 = load_part::<T1, D>(loader, arg_id, Ghost(all), Ghost(n1))?;
        let ghost n2 = n1 + T1::load_spec(all.skip(n1 as int))->Ok_0.1;
        let a2 = load_part::<T2, D>(loader, arg_id, Ghost(all), Ghost(n2))?;
        let ghost n3 = n2 + T2::load_spec(all.skip(n2 as int))->Ok_0.1;
        let a3 = load_part::<T3, D>(loader, arg_id, Ghost(all), Ghost(n3))?;
        let ghost n4 = n3 + T3::load_spec(all.skip(n3 as int))->Ok_0.1;
        let a4 = load_part::<T4, D>(loader, arg_id, Ghost(all), Ghost(n4))?;
        let ghost n5 = n4 + T4::load_spec(all.skip(n4 as int))->Ok_0.1;
        let a5 = load_part::<T5, D>(loader, arg_id, Ghost(all), Ghost(n5))?;
        let ghost n6 = n5 + T5::load_spec(all.skip(n5 as int))->Ok_0.1;
        let a6 = load_part::<T6, D>(loader, arg_id, Ghost(all), Ghost(n6))?;
        Ok(MultiArg7((a0, a1, a2, a3, a4, a5, a6)))
    }
}

impl<
    T0: TakesArg<D>, T1: ArgType<D>, T2: ArgType<D>, T3: ArgType<D>, T4: ArgType<D>,
    T5: ArgType<D>, T6: ArgType<D>, D: DynArgLoader,
> TakesArg<D> for MultiArg7<T0, T1, T2, T3, T4, T5, T6> {
    proof fn lemma_takes_arg(args: Seq<Seq<u8>>) {
        T0::lemma_takes_arg(args);
    }
}

/// Loading seven decodable arguments uses exactly seven raw arguments
/// where that many are there, however many follow; with fewer the
/// loading ends with a wrong number of arguments. So the loading leaves
/// nothing behind just where exactly seven raw arguments were given.
pub proof fn lemma_multi_arg7_count<
    T0: Decode, T1: Decode, T2: Decode, T3: Decode, T4: Decode, T5: Decode, T6: Decode,
    D: DynArgLoader,
>(args: Seq<Seq<u8>>)
    requires
        args.len() > 0 ==> T0::top_decoded(args[0]) is Ok,
        args.len() > 1 ==> T1::top_decoded(args[1]) is Ok,
        args.len() > 2 ==> T2::top_decoded(args[2]) is Ok,
        args.len() > 3 ==> T3::top_decoded(args[3]) is Ok,
        args.len() > 4 ==> T4::top_decoded(args[4]) is Ok,
        args.len() > 5 ==> T5::top_decoded(args[5]) is Ok,
        args.len() > 6 ==> T6::top_decoded(args[6]) is Ok,
    ensures
        ({
            let loaded = <MultiArg7<T0, T1, T2, T3, T4, T5, T6> as ArgType<D>>::load_spec(args);
            &&& args.len() >= 7 ==> (loaded matches Ok((_, k)) && k == 7)
            &&& args.len() < 7 ==> loaded is Err && loaded->Err_0 == SCError::ArgWrongNumber
            &&& (loaded matches Ok((_, k)) && k == args.len()) <==> args.len() == 7
        }),
{
    if args.len() > 1 {
        assert(args.skip(1)[0] == args[1]);
    }
    if args.len() > 2 {
        assert(args.skip(2)[0] == args[2]);
    }
    if args.len() > 3 {
        assert(args.skip(3)[0] == args[3]);
    }
    if args.len() > 4 {
        assert(args.skip(4)[0] == args[4]);
    }
    if args.len() > 5 {
        assert(args.skip(5)[0] == args[5]);
    }
    if args.len() > 6 {
        assert(args.skip(6)[0] == args[6]);
    }
}

/// Eight arguments, each of its own type, loaded in their order.
pub struct MultiArg8<T0, T1, T2, T3, T4, T5, T6, T7>(pub (T0, T1, T2, T3, T4, T5, T6, T7));

impl<
    T0: View, T1: View, T2: View, T3: View, T4: View, T5: View, T6: View, T7: View,
> View for MultiArg8<T0, T1, T2, T3, T4, T5, T6, T7> {
    type V = (T0::V, T1::V, T2::V, T3::V, T4::V, T5::V, T6::V, T7::V);

    open spec fn view(&self) -> (T0::V, T1::V, T2::V, T3::V, T4::V, T5::V, T6::V, T7::V) {
        (self.0.0@, self.0.1@, self.0.2@, self.0.3@, self.0.4@, self.0.5@, self.0.6@, self.0.7@)
    }
}

impl<T0, T1, T2, T3, T4, T5, T6, T7> MultiArg8<T0, T1, T2, T3, T4, T5, T6, T7> {
    /// The arguments as a tuple.
    pub fn into_tuple(self) -> (r: (T0, T1, T2, T3, T4, T5, T6, T7))
        ensures
            r == self.0,
    {
        self.0
    }
}

impl<
    T0: ArgType<D>, T1: ArgType<D>, T2: ArgType<D>, T3: ArgType<D>, T4: ArgType<D>, T5: ArgType<D>,
    T6: ArgType<D>, T7: ArgType<D>, D: DynArgLoader,
> ArgType<D> for MultiArg8<T0, T1, T2, T3, T4, T5, T6, T7> {
    /// Each argument is loaded from what the ones before it left; the
    /// first error ends the loading.
    open spec fn load_spec(args: Seq<Seq<u8>>) -> Result<((
        T0::V, T1::V, T2::V, T3::V, T4::V, T5::V, T6::V, T7::V,
    ), nat), SCError> {
        let r0 = T0::load_spec(args);
        let n1 = r0->Ok_0.1;
        let r1 = T1::load_spec(args.skip(n1 as int));
        let n2 = n1 + r1->Ok_0.1;
        let r2 = T2::load_spec(args.skip(n2 as int));
        let n3 = n2 + r2->Ok_0.1;
        let r3 = T3::load_spec(args.skip(n3 as int));
        let n4 = n3 + r3->Ok_0.1;
        let r4 = T4::load_spec(args.skip(n4 as int));
        let n5 = n4 + r4->Ok_0.1;
        let r5 = T5::load_spec(args.skip(n5 as int));
        let n6 = n5 + r5->Ok_0.1;
        let r6 = T6::load_spec(args.skip(n6 as int));
        let n7 = n6 + r6->Ok_0.1;
        let r7 = T7::load_spec(args.skip(n7 as int));
        let n8 = n7 + r7->Ok_0.1;
        if r0 is Err {
            Err(r0->Err_0)
        } else if r1 is Err {
            Err(r1->Err_0)
        } else if r2 is Err {
            Err(r2->Err_0)
        } else if r3 is Err {
            Err(r3->Err_0)
        } else if r4 is Err {
            Err(r4->Err_0)
        } else if r5 is Err {
            Err(r5->Err_0)
        } else if r6 is Err {
            Err(r6->Err_0)
        } else if r7 is Err {
            Err(r7->Err_0)
        } else {
            Ok(((
                r0->Ok_0.0, r1->Ok_0.0, r2->Ok_0.0, r3->Ok_0.0, r4->Ok_0.0, r5->Ok_0.0, r6->Ok_0.0,
                r7->Ok_0.0,
            ), n8))
        }
    }

    proof fn lemma_load_bound(args: Seq<Seq<u8>>) {
        T0::lemma_load_bound(args);
        let n1 = T0::load_spec(args)->Ok_0.1;
        T1::lemma_load_bound(args.skip(n1 as int));
        let n2 = n1 + T1::load_spec(args.skip(n1 as int))->Ok_0.1;
        T2::lemma_load_bound(args.skip(n2 as int));
        let n3 = n2 + T2::load_spec(args.skip(n2 as int))->Ok_0.1;
        T3::lemma_load_bound(args.skip(n3 as int));
        let n4 = n3 + T3::load_spec(args.skip(n3 as int))->Ok_0.1;
        T4::lemma_load_bound(args.skip(n4 as int));
        let n5 = n4 + T4::load_spec(args.skip(n4 as int))->Ok_0.1;
        T5::lemma_load_bound(args.skip(n5 as int));
        let n6 = n5 + T5::load_spec(args.skip(n5 as int))->Ok_0.1;
        T6::lemma_load_bound(args.skip(n6 as int));
        let n7 = n6 + T6::load_spec(args.skip(n6 as int))->Ok_0.1;
        T7::lemma_load_bound(args.skip(n7 as int));
    }

    fn load(loader: &mut D, arg_id: ArgId) -> (r: Result<Self, SCError>) {
        let ghost all = loader.remaining();
        proof {
            assert(all.skip(0) =~= all);
        }
        let a0 = load_part::<T0, D>(loader, arg_id, Ghost(all), Ghost(0))?;
        let ghost n1 = T0::load_spec(all)->Ok_0.1;
        let a1 = load_part::<T1, D>(loader, arg_id, Ghost(all), Ghost(n1))?;
        let ghost n2 = n1 + T1::load_spec(all.skip(n1 as int))->Ok_0.1;
        let a2 = load_part::<T2, D>(loader, arg_id, Ghost(all), Ghost(n2))?;
        let ghost n3 = n2 + T2::load_spec(all.skip(n2 as int))->Ok_0.1;
        let a3 = load_part::<T3, D>(loader, arg_id, Ghost(all), Ghost(n3))?;
        let ghost n4 = n3 + T3::load_spec(all.skip(n3 as int))->Ok_0.1;
        let a4 = load_part::<T4, D>(loader, arg_id, Ghost(all), Ghost(n4))?;
        let ghost n5 = n4 + T4::load_spec(all.skip(n4 as int))->Ok_0.1;
        let a5 = load_part::<T5, D>(loader, arg_id, Ghost(all), Ghost(n5))?;
        let ghost n6 = n5 + T5::load_spec(all.skip(n5 as int))->Ok_0.1;
        let a6 = load_part::<T6, D>(loader, arg_id, Ghost(all), Ghost(n6))?;
        let ghost n7 = n6 + T6::load_spec(all.skip(n6 as int))->Ok_0.1;
        let a7 = load_part::<T7, D>(loader, arg_id, Ghost(all), Ghost(n7))?;
        Ok(MultiArg8((a0, a1, a2, a3, a4, a5, a6, a7)))
    }
}

impl<
    T0: TakesArg<D>, T1: ArgType<D>, T2: ArgType<D>, T3: ArgType<D>, T4: ArgType<D>,
    T5: ArgType<D>, T6: ArgType<D>, T7: ArgType<D>, D: DynArgLoader,
> TakesArg<D> for MultiArg8<T0, T1, T2, T3, T4, T5, T6, T7> {
    proof fn lemma_takes_arg(args: Seq<Seq<u8>>) {
        T0::lemma_takes_arg(args);
    }
}

/// Loading eight decodable arguments uses exactly eight raw arguments
/// where that many are there, however many follow; with fewer the
/// loading ends with a wrong number of arguments. So the loading leaves
/// nothing behind just where exactly eight raw arguments were given.
pub proof fn lemma_multi_arg8_count<
    T0: Decode, T1: Decode, T2: Decode, T3: Decode, T4: Decode, T5: Decode, T6: Decode, T7: Decode,
    D: DynArgLoader,
>(args: Seq<Seq<u8>>)
    requires
        args.len() > 0 ==> T0::top_decoded(args[0]) is Ok,
        args.len() > 1 ==> T1::top_decoded(args[1]) is Ok,
        args.len() > 2 ==> T2::top_decoded(args[2]) is Ok,
        args.len() > 3 ==> T3::top_decoded(args[3]) is Ok,
        args.len() > 4 ==> T4::top_decoded(args[4]) is Ok,
        args.len() > 5 ==> T5::top_decoded(args[5]) is Ok,
        args.len() > 6 ==> T6::top_decoded(args[6]) is Ok,
        args.len() > 7 ==> T7::top_decoded(args[7]) is Ok,
    ensures
        ({
            let loaded = <MultiArg8<T0, T1, T2, T3, T4, T5, T6, T7> as ArgType<D>>::load_spec(args);
            &&& args.len() >= 8 ==> (loaded matches Ok((_, k)) && k == 8)
            &&& args.len() < 8 ==> loaded is Err && loaded->Err_0 == SCError::ArgWrongNumber
            &&& (loaded matches Ok((_, k)) && k == args.len()) <==> args.len() == 8
        }),
{
    if args.len() > 1 {
        assert(args.skip(1)[0] == args[1]);
    }
    if args.len() > 2 {
        assert(args.skip(2)[0] == args[2]);
    }
    if args.len() > 3 {
        assert(args.skip(3)[0] == args[3]);
    }
    if args.len() > 4 {
        assert(args.skip(4)[0] == args[4]);
    }
    if args.len() > 5 {
        assert(args.skip(5)[0] == args[5]);
    }
    if args.len() > 6 {
        assert(args.skip(6)[0] == args[6]);
    }
    if args.len() > 7 {
        assert(args.skip(7)[0] == args[7]);
    }
}

/// Nine arguments, each of its own type, loaded in their order.
pub struct MultiArg9<T0, T1, T2, T3, T4, T5, T6, T7, T8>(pub (T0, T1, T2, T3, T4, T5, T6, T7, T8));

impl<
    T0: View, T1: View, T2: View, T3: View, T4: View, T5: View, T6: View, T7: View, T8: View,
> View for MultiArg9<T0, T1, T2, T3, T4, T5, T6, T7, T8> {
    type V = (T0::V, T1::V, T2::V, T3::V, T4::V, T5::V, T6::V, T7::V, T8::V);

    open spec fn view(&self) -> (T0::V, T1::V, T2::V, T3::V, T4::V, T5::V, T6::V, T7::V, T8::V) {
        (
            self.0.0@, self.0.1@, self.0.2@, self.0.3@, self.0.4@, self.0.5@, self.0.6@, self.0.7@,
            self.0.8@,
        )
    }
}

impl<T0, T1, T2, T3, T4, T5, T6, T7, T8> MultiArg9<T0, T1, T2, T3, T4, T5, T6, T7, T8> {
    /// The arguments as a tuple.
    pub fn into_tuple(self) -> (r: (T0, T1, T2, T3, T4, T5, T6, T7, T8))
        ensures
            r == self.0,
    {
        self.0
    }
}

impl<
    T0: ArgType<D>, T1: ArgType<D>, T2: ArgType<D>, T3: ArgType<D>, T4: ArgType<D>, T5: ArgType<D>,
    T6: ArgType<D>, T7: ArgType<D>, T8: ArgType<D>, D: DynArgLoader,
> ArgType<D> for MultiArg9<T0, T1, T2, T3, T4, T5, T6, T7, T8> {
    /// Each argument is loaded from what the ones before it left; the
    /// first error ends the loading.
    open spec fn load_spec(args: Seq<Seq<u8>>) -> Result<((
        T0::V, T1::V, T2::V, T3::V, T4::V, T5::V, T6::V, T7::V, T8::V,
    ), nat), SCError> {
        let r0 = T0::load_spec(args);
        let n1 = r0->Ok_0.1;
        let r1 = T1::load_spec(args.skip(n1 as int));
        let n2 = n1 + r1->Ok_0.1;
        let r2 = T2::load_spec(args.skip(n2 as int));
        let n3 = n2 + r2->Ok_0.1;
        let r3 = T3::load_spec(args.skip(n3 as int));
        let n4 = n3 + r3->Ok_0.1;
        let r4 = T4::load_spec(args.skip(n4 as int));
        let n5 = n4 + r4->Ok_0.1;
        let r5 = T5::load_spec(args.skip(n5 as int));
        let n6 = n5 + r5->Ok_0.1;
        let r6 = T6::load_spec(args.skip(n6 as int));
        let n7 = n6 + r6->Ok_0.1;
        let r7 = T7::load_spec(args.skip(n7 as int));
        let n8 = n7 + r7->Ok_0.1;
        let r8 = T8::load_spec(args.skip(n8 as int));
        let n9 = n8 + r8->Ok_0.1;
        if r0 is Err {
            Err(r0->Err_0)
        } else if r1 is Err {
            Err(r1->Err_0)
        } else if r2 is Err {
            Err(r2->Err_0)
        } else if r3 is Err {
            Err(r3->Err_0)
        } else if r4 is Err {
            Err(r4->Err_0)
        } else if r5 is Err {
            Err(r5->Err_0)
        } else if r6 is Err {
            Err(r6->Err_0)
        } else if r7 is Err {
            Err(r7->Err_0)
        } else if r8 is Err {
            Err(r8->Err_0)
        } else {
            Ok(((
                r0->Ok_0.0, r1->Ok_0.0, r2->Ok_0.0, r3->Ok_0.0, r4->Ok_0.0, r5->Ok_0.0, r6->Ok_0.0,
                r7->Ok_0.0, r8->Ok_0.0,
            ), n9))
        }
    }

    proof fn lemma_load_bound(args: Seq<Seq<u8>>) {
        T0::lemma_load_bound(args);
        let n1 = T0::load_spec(args)->Ok_0.1;
        T1::lemma_load_bound(args.skip(n1 as int));
        let n2 = n1 + T1::load_spec(args.skip(n1 as int))->Ok_0.1;
        T2::lemma_load_bound(args.skip(n2 as int));
        let n3 = n2 + T2::load_spec(args.skip(n2 as int))->Ok_0.1;
        T3::lemma_load_bound(args.skip(n3 as int));
        let n4 = n3 + T3::load_spec(args.skip(n3 as int))->Ok_0.1;
        T4::lemma_load_bound(args.skip(n4 as int));
        let n5 = n4 + T4::load_spec(args.skip(n4 as int))->Ok_0.1;
        T5::lemma_load_bound(args.skip(n5 as int));
        let n6 = n5 + T5::load_spec(args.skip(n5 as int))->Ok_0.1;
        T6::lemma_load_bound(args.skip(n6 as int));
        let n7 = n6 + T6::load_spec(args.skip(n6 as int))->Ok_0.1;
        T7::lemma_load_bound(args.skip(n7 as int));
        let n8 = n7 + T7::load_spec(args.skip(n7 as int))->Ok_0.1;
        T8::lemma_load_bound(args.skip(n8 as int));
    }

    fn load(loader: &mut D, arg_id: ArgId) -> (r: Result<Self, SCError>) {
        let ghost all = loader.remaining();
        proof {
            assert(all.skip(0) =~= all);
        }
        let a0 = load_part::<T0, D>(loader, arg_id, Ghost(all), Ghost(0))?;
        let ghost n1 = T0::load_spec(all)->Ok_0.1;
        let a1 = load_part::<T1, D>(loader, arg_id, Ghost(all), Ghost(n1))?;
        let ghost n2 = n1 + T1::load_spec(all.skip(n1 as int))->Ok_0.1;
        let a2 = load_part::<T2, D>(loader, arg_id, Ghost(all), Ghost(n2))?;
        let ghost n3 = n2 + T2::load_spec(all.skip(n2 as int))->Ok_0.1;
        let a3 = load_part::<T3, D>(loader, arg_id, Ghost(all), Ghost(n3))?;
        let ghost n4 = n3 + T3::load_spec(all.skip(n3 as int))->Ok_0.1;
        let a4 = load_part::<T4, D>(loader, arg_id, Ghost(all), Ghost(n4))?;
        let ghost n5 = n4 + T4::load_spec(all.skip(n4 as int))->Ok_0.1;
        let a5 = load_part::<T5, D>(loader, arg_id, Ghost(all), Ghost(n5))?;
        let ghost n6 = n5 + T5::load_spec(all.skip(n5 as int))->Ok_0.1;
        let a6 = load_part::<T6, D>(loader, arg_id, Ghost(all), Ghost(n6))?;
        let ghost n7 = n6 + T6::load_spec(all.skip(n6 as int))->Ok_0.1;
        let a7 = load_part::<T7, D>(loader, arg_id, Ghost(all), Ghost(n7))?;
        let ghost n8 = n7 + T7::load_spec(all.skip(n7 as int))->Ok_0.1;
        let a8 = load_part::<T8, D>(loader, arg_id, Ghost(all), Ghost(n8))?;
        Ok(MultiArg9((a0, a1, a2, a3, a4, a5, a6, a7, a8)))
    }
}

impl<
    T0: TakesArg<D>, T1: ArgType<D>, T2: ArgType<D>, T3: ArgType<D>, T4: ArgType<D>,
    T5: ArgType<D>, T6: ArgType<D>, T7: ArgType<D>, T8: ArgType<D>, D: DynArgLoader,
> TakesArg<D> for MultiArg9<T0, T1, T2, T3, T4, T5, T6, T7, T8> {
    proof fn lemma_takes_arg(args: Seq<Seq<u8>>) {
        T0::lemma_takes_arg(args);
    }
}

/// Loading nine decodable arguments uses exactly nine raw arguments
/// where that many are there, however many follow; with fewer the
/// loading ends with a wrong number of arguments. So the loading leaves
/// nothing behind just where exactly nine raw arguments were given.
pub proof fn lemma_multi_arg9_count<
    T0: Decode, T1: Decode, T2: Decode, T3: Decode, T4: Decode, T5: Decode, T6: Decode, T7: Decode,
    T8: Decode, D: DynArgLoader,
>(args: Seq<Seq<u8>>)
    requires
        args.len() > 0 ==> T0::top_decoded(args[0]) is Ok,
        args.len() > 1 ==> T1::top_decoded(args[1]) is Ok,
        args.len() > 2 ==> T2::top_decoded(args[2]) is Ok,
        args.len() > 3 ==> T3::top_decoded(args[3]) is Ok,
        args.len() > 4 ==> T4::top_decoded(args[4]) is Ok,
        args.len() > 5 ==> T5::top_decoded(args[5]) is Ok,
        args.len() > 6 ==> T6::top_decoded(args[6]) is Ok,
        args.len() > 7 ==> T7::top_decoded(args[7]) is Ok,
        args.len() > 8 ==> T8::top_decoded(args[8]) is Ok,
    ensures
        ({
            let loaded = <MultiArg9<
                T0, T1, T2, T3, T4, T5, T6, T7, T8,
            > as ArgType<D>>::load_spec(args);
            &&& args.len() >= 9 ==> (loaded matches Ok((_, k)) && k == 9)
            &&& args.len() < 9 ==> loaded is Err && loaded->Err_0 == SCError::ArgWrongNumber
            &&& (loaded matches Ok((_, k)) && k == args.len()) <==> args.len() == 9
        }),
{
    if args.len() > 1 {
        assert(args.skip(1)[0] == args[1]);
    }
    if args.len() > 2 {
        assert(args.skip(2)[0] == args[2]);
    }
    if args.len() > 3 {
        assert(args.skip(3)[0] == args[3]);
    }
    if args.len() > 4 {
        assert(args.skip(4)[0] == args[4]);
    }
    if args.len() > 5 {
        assert(args.skip(5)[0] == args[5]);
    }
    if args.len() > 6 {
        assert(args.skip(6)[0] == args[6]);
    }
    if args.len() > 7 {
        assert(args.skip(7)[0] == args[7]);
    }
    if args.len() > 8 {
        assert(args.skip(8)[0] == args[8]);
    }
}

/// Ten arguments, each of its own type, loaded in their order.
pub struct MultiArg10<
    T0, T1, T2, T3, T4, T5, T6, T7, T8, T9,
>(pub (T0, T1, T2, T3, T4, T5, T6, T7, T8, T9));

impl<
    T0: View, T1: View, T2: View, T3: View, T4: View, T5: View, T6: View, T7: View, T8: View,
    T9: View,
> View for MultiArg10<T0, T1, T2, T3, T4, T5, T6, T7, T8, T9> {
    type V = (T0::V, T1::V, T2::V, T3::V, T4::V, T5::V, T6::V, T7::V, T8::V, T9::V);

    open spec fn view(&self) -> (
        T0::V, T1::V, T2::V, T3::V, T4::V, T5::V, T6::V, T7::V, T8::V, T9::V,
    ) {
        (
            self.0.0@, self.0.1@, self.0.2@, self.0.3@, self.0.4@, self.0.5@, self.0.6@, self.0.7@,
            self.0.8@, self.0.9@,
        )
    }
}

impl<T0, T1, T2, T3, T4, T5, T6, T7, T8, T9> MultiArg10<T0, T1, T2, T3, T4, T5, T6, T7, T8, T9> {
    /// The arguments as a tuple.
    pub fn into_tuple(self) -> (r: (T0, T1, T2, T3, T4, T5, T6, T7, T8, T9))
        ensures
            r == self.0,
    {
        self.0
    }
}

impl<
    T0: ArgType<D>, T1: ArgType<D>, T2: ArgType<D>, T3: ArgType<D>, T4: ArgType<D>, T5: ArgType<D>,
    T6: ArgType<D>, T7: ArgType<D>, T8: ArgType<D>, T9: ArgType<D>, D: DynArgLoader,
> ArgType<D> for MultiArg10<T0, T1, T2, T3, T4, T5, T6, T7, T8, T9> {
    /// Each argument is loaded from what the ones before it left; the
    /// first error ends the loading.
    open spec fn load_spec(args: Seq<Seq<u8>>) -> Result<((
        T0::V, T1::V, T2::V, T3::V, T4::V, T5::V, T6::V, T7::V, T8::V, T9::V,
    ), nat), SCError> {
        let r0 = T0::load_spec(args);
        let n1 = r0->Ok_0.1;
        let r1 = T1::load_spec(args.skip(n1 as int));
        let n2 = n1 + r1->Ok_0.1;
        let r2 = T2::load_spec(args.skip(n2 as int));
        let n3 = n2 + r2->Ok_0.1;
        let r3 = T3::load_spec(args.skip(n3 as int));
        let n4 = n3 + r3->Ok_0.1;
        let r4 = T4::load_spec(args.skip(n4 as int));
        let n5 = n4 + r4->Ok_0.1;
        let r5 = T5::load_spec(args.skip(n5 as int));
        let n6 = n5 + r5->Ok_0.1;
        let r6 = T6::load_spec(args.skip(n6 as int));
        let n7 = n6 + r6->Ok_0.1;
        let r7 = T7::load_spec(args.skip(n7 as int));
        let n8 = n7 + r7->Ok_0.1;
        let r8 = T8::load_spec(args.skip(n8 as int));
        let n9 = n8 + r8->Ok_0.1;
        let r9 = T9::load_spec(args.skip(n9 as int));
        let n10 = n9 + r9->Ok_0.1;
        if r0 is Err {
            Err(r0->Err_0)
        } else if r1 is Err {
            Err(r1->Err_0)
        } else if r2 is Err {
            Err(r2->Err_0)
        } else if r3 is Err {
            Err(r3->Err_0)
        } else if r4 is Err {
            Err(r4->Err_0)
        } else if r5 is Err {
            Err(r5->Err_0)
        } else if r6 is Err {
            Err(r6->Err_0)
        } else if r7 is Err {
            Err(r7->Err_0)
        } else if r8 is Err {
            Err(r8->Err_0)
        } else if r9 is Err {
            Err(r9->Err_0)
        } else {
            Ok(((
                r0->Ok_0.0, r1->Ok_0.0, r2->Ok_0.0, r3->Ok_0.0, r4->Ok_0.0, r5->Ok_0.0, r6->Ok_0.0,
                r7->Ok_0.0, r8->Ok_0.0, r9->Ok_0.0,
            ), n10))
        }
    }

    proof fn lemma_load_bound(args: Seq<Seq<u8>>) {
        T0::lemma_load_bound(args);
        let n1 = T0::load_spec(args)->Ok_0.1;
        T1::lemma_load_bound(args.skip(n1 as int));
        let n2 = n1 + T1::load_spec(args.skip(n1 as int))->Ok_0.1;
        T2::lemma_load_bound(args.skip(n2 as int));
        let n3 = n2 + T2::load_spec(args.skip(n2 as int))->Ok_0.1;
        T3::lemma_load_bound(args.skip(n3 as int));
        let n4 = n3 + T3::load_spec(args.skip(n3 as int))->Ok_0.1;
        T4::lemma_load_bound(args.skip(n4 as int));
        let n5 = n4 + T4::load_spec(args.skip(n4 as int))->Ok_0.1;
        T5::lemma_load_bound(args.skip(n5 as int));
        let n6 = n5 + T5::load_spec(args.skip(n5 as int))->Ok_0.1;
        T6::lemma_load_bound(args.skip(n6 as int));
        let n7 = n6 + T6::load_spec(args.skip(n6 as int))->Ok_0.1;
        T7::lemma_load_bound(args.skip(n7 as int));
        let n8 = n7 + T7::load_spec(args.skip(n7 as int))->Ok_0.1;
        T8::lemma_load_bound(args.skip(n8 as int));
        let n9 = n8 + T8::load_spec(args.skip(n8 as int))->Ok_0.1;
        T9::lemma_load_bound(args.skip(n9 as int));
    }

    fn load(loader: &mut D, arg_id: ArgId) -> (r: Result<Self, SCError>) {
        let ghost all = loader.remaining();
        proof {
            assert(all.skip(0) =~= all);
        }
        let a0 = load_part::<T0, D>(loader, arg_id, Ghost(all), Ghost(0))?;
        let ghost n1 = T0::load_spec(all)->Ok_0.1;
        let a1 = load_part::<T1, D>(loader, arg_id, Ghost(all), Ghost(n1))?;
        let ghost n2 = n1 + T1::load_spec(all.skip(n1 as int))->Ok_0.1;
        let a2 = load_part::<T2, D>(loader, arg_id, Ghost(all), Ghost(n2))?;
        let ghost n3 = n2 + T2::load_spec(all.skip(n2 as int))->Ok_0.1;
        let a3 = load_part::<T3, D>(loader, arg_id, Ghost(all), Ghost(n3))?;
        let ghost n4 = n3 + T3::load_spec(all.skip(n3 as int))->Ok_0.1;
        let a4 = load_part::<T4, D>(loader, arg_id, Ghost(all), Ghost(n4))?;
        let ghost n5 = n4 + T4::load_spec(all.skip(n4 as int))->Ok_0.1;
        let a5 = load_part::<T5, D>(loader, arg_id, Ghost(all), Ghost(n5))?;
        let ghost n6 = n5 + T5::load_spec(all.skip(n5 as int))->Ok_0.1;
        let a6 = load_part::<T6, D>(loader, arg_id, Ghost(all), Ghost(n6))?;
        let ghost n7 = n6 + T6::load_spec(all.skip(n6 as int))->Ok_0.1;
        let a7 = load_part::<T7, D>(loader, arg_id, Ghost(all), Ghost(n7))?;
        let ghost n8 = n7 + T7::load_spec(all.skip(n7 as int))->Ok_0.1;
        let a8 = load_part::<T8, D>(loader, arg_id, Ghost(all), Ghost(n8))?;
        let ghost n9 = n8 + T8::load_spec(all.skip(n8 as int))->Ok_0.1;
        let a9 = load_part::<T9, D>(loader, arg_id, Ghost(all), Ghost(n9))?;
        Ok(MultiArg10((a0, a1, a2, a3, a4, a5, a6, a7, a8, a9)))
    }
}

impl<
    T0: TakesArg<D>, T1: ArgType<D>, T2: ArgType<D>, T3: ArgType<D>, T4: ArgType<D>,
    T5: ArgType<D>, T6: ArgType<D>, T7: ArgType<D>, T8: ArgType<D>, T9: ArgType<D>,
    D: DynArgLoader,
> TakesArg<D> for MultiArg10<T0, T1, T2, T3, T4, T5, T6, T7, T8, T9> {
    proof fn lemma_takes_arg(args: Seq<Seq<u8>>) {
        T0::lemma_takes_arg(args);
    }
}

/// Loading ten decodable arguments uses exactly ten raw arguments
/// where that many are there, however many follow; with fewer the
/// loading ends with a wrong number of arguments. So the loading leaves
/// nothing behind just where exactly ten raw arguments were given.
pub proof fn lemma_multi_arg10_count<
    T0: Decode, T1: Decode, T2: Decode, T3: Decode, T4: Decode, T5: Decode, T6: Decode, T7: Decode,
    T8: Decode, T9: Decode, D: DynArgLoader,
>(args: Seq<Seq<u8>>)
    requires
        args.len() > 0 ==> T0::top_decoded(args[0]) is Ok,
        args.len() > 1 ==> T1::top_decoded(args[1]) is Ok,
        args.len() > 2 ==> T2::top_decoded(args[2]) is Ok,
        args.len() > 3 ==> T3::top_decoded(args[3]) is Ok,
        args.len() > 4 ==> T4::top_decoded(args[4]) is Ok,
        args.len() > 5 ==> T5::top_decoded(args[5]) is Ok,
        args.len() > 6 ==> T6::top_decoded(args[6]) is Ok,
        args.len() > 7 ==> T7::top_decoded(args[7]) is Ok,
        args.len() > 8 ==> T8::top_decoded(args[8]) is Ok,
        args.len() > 9 ==> T9::top_decoded(args[9]) is Ok,
    ensures
        ({
            let loaded = <MultiArg10<
                T0, T1, T2, T3, T4, T5, T6, T7, T8, T9,
            > as ArgType<D>>::load_spec(args);
            &&& args.len() >= 10 ==> (loaded matches Ok((_, k)) && k == 10)
            &&& args.len() < 10 ==> loaded is Err && loaded->Err_0 == SCError::ArgWrongNumber
            &&& (loaded matches Ok((_, k)) && k == args.len()) <==> args.len() == 10
        }),
{
    if args.len() > 1 {
        assert(args.skip(1)[0] == args[1]);
    }
    if args.len() > 2 {
        assert(args.skip(2)[0] == args[2]);
    }
    if args.len() > 3 {
        assert(args.skip(3)[0] == args[3]);
    }
    if args.len() > 4 {
        assert(args.skip(4)[0] == args[4]);
    }
    if args.len() > 5 {
        assert(args.skip(5)[0] == args[5]);
    }
    if args.len() > 6 {
        assert(args.skip(6)[0] == args[6]);
    }
    if args.len() > 7 {
        assert(args.skip(7)[0] == args[7]);
    }
    if args.len() > 8 {
        assert(args.skip(8)[0] == args[8]);
    }
    if args.len() > 9 {
        assert(args.skip(9)[0] == args[9]);
    }
}

/// Eleven arguments, each of its own type, loaded in their order.
pub struct MultiArg11<
    T0, T1, T2, T3, T4, T5, T6, T7, T8, T9, T10,
>(pub (T0, T1, T2, T3, T4, T5, T6, T7, T8, T9, T10));

impl<
    T0: View, T1: View, T2: View, T3: View, T4: View, T5: View, T6: View, T7: View, T8: View,
    T9: View, T10: View,
> View for MultiArg11<T0, T1, T2, T3, T4, T5, T6, T7, T8, T9, T10> {
    type V = (T0::V, T1::V, T2::V, T3::V, T4::V, T5::V, T6::V, T7::V, T8::V, T9::V, T10::V);

    open spec fn view(&self) -> (
        T0::V, T1::V, T2::V, T3::V, T4::V, T5::V, T6::V, T7::V, T8::V, T9::V, T10::V,
    ) {
        (
            self.0.0@, self.0.1@, self.0.2@, self.0.3@, self.0.4@, self.0.5@, self.0.6@, self.0.7@,
            self.0.8@, self.0.9@, self.0.10@,
        )
    }
}

impl<
    T0, T1, T2, T3, T4, T5, T6, T7, T8, T9, T10,
> MultiArg11<T0, T1, T2, T3, T4, T5, T6, T7, T8, T9, T10> {
    /// The arguments as a tuple.
    pub fn into_tuple(self) -> (r: (T0, T1, T2, T3, T4, T5, T6, T7, T8, T9, T10))
        ensures
            r == self.0,
    {
        self.0
    }
}

impl<
    T0: ArgType<D>, T1: ArgType<D>, T2: ArgType<D>, T3: ArgType<D>, T4: ArgType<D>, T5: ArgType<D>,
    T6: ArgType<D>, T7: ArgType<D>, T8: ArgType<D>, T9: ArgType<D>, T10: ArgType<D>,
    D: DynArgLoader,
> ArgType<D> for MultiArg11<T0, T1, T2, T3, T4, T5, T6, T7, T8, T9, T10> {
    /// Each argument is loaded from what the ones before it left; the
    /// first error ends the loading.
    open spec fn load_spec(args: Seq<Seq<u8>>) -> Result<((
        T0::V, T1::V, T2::V, T3::V, T4::V, T5::V, T6::V, T7::V, T8::V, T9::V, T10::V,
    ), nat), SCError> {
        let r0 = T0::load_spec(args);
        let n1 = r0->Ok_0.1;
        let r1 = T1::load_spec(args.skip(n1 as int));
        let n2 = n1 + r1->Ok_0.1;
        let r2 = T2::load_spec(args.skip(n2 as int));
        let n3 = n2 + r2->Ok_0.1;
        let r3 = T3::load_spec(args.skip(n3 as int));
        let n4 = n3 + r3->Ok_0.1;
        let r4 = T4::load_spec(args.skip(n4 as int));
        let n5 = n4 + r4->Ok_0.1;
        let r5 = T5::load_spec(args.skip(n5 as int));
        let n6 = n5 + r5->Ok_0.1;
        let r6 = T6::load_spec(args.skip(n6 as int));
        let n7 = n6 + r6->Ok_0.1;
        let r7 = T7::load_spec(args.skip(n7 as int));
        let n8 = n7 + r7->Ok_0.1;
        let r8 = T8::load_spec(args.skip(n8 as int));
        let n9 = n8 + r8->Ok_0.1;
        let r9 = T9::load_spec(args.skip(n9 as int));
        let n10 = n9 + r9->Ok_0.1;
        let r10 = T10::load_spec(args.skip(n10 as int));
        let n11 = n10 + r10->Ok_0.1;
        if r0 is Err {
            Err(r0->Err_0)
        } else if r1 is Err {
            Err(r1->Err_0)
        } else if r2 is Err {
            Err(r2->Err_0)
        } else if r3 is Err {
            Err(r3->Err_0)
        } else if r4 is Err {
            Err(r4->Err_0)
        } else if r5 is Err {
            Err(r5->Err_0)
        } else if r6 is Err {
            Err(r6->Err_0)
        } else if r7 is Err {
            Err(r7->Err_0)
        } else if r8 is Err {
            Err(r8->Err_0)
        } else if r9 is Err {
            Err(r9->Err_0)
        } else if r10 is Err {
            Err(r10->Err_0)
        } else {
            Ok(((
                r0->Ok_0.0, r1->Ok_0.0, r2->Ok_0.0, r3->Ok_0.0, r4->Ok_0.0, r5->Ok_0.0, r6->Ok_0.0,
                r7->Ok_0.0, r8->Ok_0.0, r9->Ok_0.0, r10->Ok_0.0,
            ), n11))
        }
    }

    proof fn lemma_load_bound(args: Seq<Seq<u8>>) {
        T0::lemma_load_bound(args);
        let n1 = T0::load_spec(args)->Ok_0.1;
        T1::lemma_load_bound(args.skip(n1 as int));
        let n2 = n1 + T1::load_spec(args.skip(n1 as int))->Ok_0.1;
        T2::lemma_load_bound(args.skip(n2 as int));
        let n3 = n2 + T2::load_spec(args.skip(n2 as int))->Ok_0.1;
        T3::lemma_load_bound(args.skip(n3 as int));
        let n4 = n3 + T3::load_spec(args.skip(n3 as int))->Ok_0.1;
        T4::lemma_load_bound(args.skip(n4 as int));
        let n5 = n4 + T4::load_spec(args.skip(n4 as int))->Ok_0.1;
        T5::lemma_load_bound(args.skip(n5 as int));
        let n6 = n5 + T5::load_spec(args.skip(n5 as int))->Ok_0.1;
        T6::lemma_load_bound(args.skip(n6 as int));
        let n7 = n6 + T6::load_spec(args.skip(n6 as int))->Ok_0.1;
        T7::lemma_load_bound(args.skip(n7 as int));
        let n8 = n7 + T7::load_spec(args.skip(n7 as int))->Ok_0.1;
        T8::lemma_load_bound(args.skip(n8 as int));
        let n9 = n8 + T8::load_spec(args.skip(n8 as int))->Ok_0.1;
        T9::lemma_load_bound(args.skip(n9 as int));
        let n10 = n9 + T9::load_spec(args.skip(n9 as int))->Ok_0.1;
        T10::lemma_load_bound(args.skip(n10 as int));
    }

    fn load(loader: &mut D, arg_id: ArgId) -> (r: Result<Self, SCError>) {
        let ghost all = loader.remaining();
        proof {
            assert(all.skip(0) =~= all);
        }
        let a0 = load_part::<T0, D>(loader, arg_id, Ghost(all), Ghost(0))?;
        let ghost n1 = T0::load_spec(all)->Ok_0.1;
        let a1 = load_part::<T1, D>(loader, arg_id, Ghost(all), Ghost(n1))?;
        let ghost n2 = n1 + T1::load_spec(all.skip(n1 as int))->Ok_0.1;
        let a2 = load_part::<T2, D>(loader, arg_id, Ghost(all), Ghost(n2))?;
        let ghost n3 = n2 + T2::load_spec(all.skip(n2 as int))->Ok_0.1;
        let a3 = load_part::<T3, D>(loader, arg_id, Ghost(all), Ghost(n3))?;
        let ghost n4 = n3 + T3::load_spec(all.skip(n3 as int))->Ok_0.1;
        let a4 = load_part::<T4, D>(loader, arg_id, Ghost(all), Ghost(n4))?;
        let ghost n5 = n4 + T4::load_spec(all.skip(n4 as int))->Ok_0.1;
        let a5 = load_part::<T5, D>(loader, arg_id, Ghost(all), Ghost(n5))?;
        let ghost n6 = n5 + T5::load_spec(all.skip(n5 as int))->Ok_0.1;
        let a6 = load_part::<T6, D>(loader, arg_id, Ghost(all), Ghost(n6))?;
        let ghost n7 = n6 + T6::load_spec(all.skip(n6 as int))->Ok_0.1;
        let a7 = load_part::<T7, D>(loader, arg_id, Ghost(all), Ghost(n7))?;
        let ghost n8 = n7 + T7::load_spec(all.skip(n7 as int))->Ok_0.1;
        let a8 = load_part::<T8, D>(loader, arg_id, Ghost(all), Ghost(n8))?;
        let ghost n9 = n8 + T8::load_spec(all.skip(n8 as int))->Ok_0.1;
        let a9 = load_part::<T9, D>(loader, arg_id, Ghost(all), Ghost(n9))?;
        let ghost n10 = n9 + T9::load_spec(all.skip(n9 as int))->Ok_0.1;
        let a10 = load_part::<T10, D>(loader, arg_id, Ghost(all), Ghost(n10))?;
        Ok(MultiArg11((a0, a1, a2, a3, a4, a5, a6, a7, a8, a9, a10)))
    }
}

impl<
    T0: TakesArg<D>, T1: ArgType<D>, T2: ArgType<D>, T3: ArgType<D>, T4: ArgType<D>,
    T5: ArgType<D>, T6: ArgType<D>, T7: ArgType<D>, T8: ArgType<D>, T9: ArgType<D>,
    T10: ArgType<D>, D: DynArgLoader,
> TakesArg<D> for MultiArg11<T0, T1, T2, T3, T4, T5, T6, T7, T8, T9, T10> {
    proof fn lemma_takes_arg(args: Seq<Seq<u8>>) {
        T0::lemma_takes_arg(args);
    }
}

/// Loading eleven decodable arguments uses exactly eleven raw arguments
/// where that many are there, however many follow; with fewer the
/// loading ends with a wrong number of arguments. So the loading leaves
/// nothing behind just where exactly eleven raw arguments were given.
pub proof fn lemma_multi_arg11_count<
    T0: Decode, T1: Decode, T2: Decode, T3: Decode, T4: Decode, T5: Decode, T6: Decode, T7: Decode,
    T8: Decode, T9: Decode, T10: Decode, D: DynArgLoader,
>(args: Seq<Seq<u8>>)
    requires
        args.len() > 0 ==> T0::top_decoded(args[0]) is Ok,
        args.len() > 1 ==> T1::top_decoded(args[1]) is Ok,
        args.len() > 2 ==> T2::top_decoded(args[2]) is Ok,
        args.len() > 3 ==> T3::top_decoded(args[3]) is Ok,
        args.len() > 4 ==> T4::top_decoded(args[4]) is Ok,
        args.len() > 5 ==> T5::top_decoded(args[5]) is Ok,
        args.len() > 6 ==> T6::top_decoded(args[6]) is Ok,
        args.len() > 7 ==> T7::top_decoded(args[7]) is Ok,
        args.len() > 8 ==> T8::top_decoded(args[8]) is Ok,
        args.len() > 9 ==> T9::top_decoded(args[9]) is Ok,
        args.len() > 10 ==> T10::top_decoded(args[10]) is Ok,
    ensures
        ({
            let loaded = <MultiArg11<
                T0, T1, T2, T3, T4, T5, T6, T7, T8, T9, T10,
            > as ArgType<D>>::load_spec(args);
            &&& args.len() >= 11 ==> (loaded matches Ok((_, k)) && k == 11)
            &&& args.len() < 11 ==> loaded is Err && loaded->Err_0 == SCError::ArgWrongNumber
            &&& (loaded matches Ok((_, k)) && k == args.len()) <==> args.len() == 11
        }),
{
    if args.len() > 1 {
        assert(args.skip(1)[0] == args[1]);
    }
    if args.len() > 2 {
        assert(args.skip(2)[0] == args[2]);
    }
    if args.len() > 3 {
        assert(args.skip(3)[0] == args[3]);
    }
    if args.len() > 4 {
        assert(args.skip(4)[0] == args[4]);
    }
    if args.len() > 5 {
        assert(args.skip(5)[0] == args[5]);
    }
    if args.len() > 6 {
        assert(args.skip(6)[0] == args[6]);
    }
    if args.len() > 7 {
        assert(args.skip(7)[0] == args[7]);
    }
    if args.len() > 8 {
        assert(args.skip(8)[0] == args[8]);
    }
    if args.len() > 9 {
        assert(args.skip(9)[0] == args[9]);
    }
    if args.len() > 10 {
        assert(args.skip(10)[0] == args[10]);
    }
}

/// Twelve arguments, each of its own type, loaded in their order.
pub struct MultiArg12<
    T0, T1, T2, T3, T4, T5, T6, T7, T8, T9, T10, T11,
>(pub (T0, T1, T2, T3, T4, T5, T6, T7, T8, T9, T10, T11));

impl<
    T0: View, T1: View, T2: View, T3: View, T4: View, T5: View, T6: View, T7: View, T8: View,
    T9: View, T10: View, T11: View,
> View for MultiArg12<T0, T1, T2, T3, T4, T5, T6, T7, T8, T9, T10, T11> {
    type V = (T0::V, T1::V, T2::V, T3::V, T4::V, T5::V, T6::V, T7::V, T8::V, T9::V, T10::V, T11::V);

    open spec fn view(&self) -> (
        T0::V, T1::V, T2::V, T3::V, T4::V, T5::V, T6::V, T7::V, T8::V, T9::V, T10::V, T11::V,
    ) {
        (
            self.0.0@, self.0.1@, self.0.2@, self.0.3@, self.0.4@, self.0.5@, self.0.6@, self.0.7@,
            self.0.8@, self.0.9@, self.0.10@, self.0.11@,
        )
    }
}

impl<
    T0, T1, T2, T3, T4, T5, T6, T7, T8, T9, T10, T11,
> MultiArg12<T0, T1, T2, T3, T4, T5, T6, T7, T8, T9, T10, T11> {
    /// The arguments as a tuple.
    pub fn into_tuple(self) -> (r: (T0, T1, T2, T3, T4, T5, T6, T7, T8, T9, T10, T11))
        ensures
            r == self.0,
    {
        self.0
    }
}

impl<
    T0: ArgType<D>, T1: ArgType<D>, T2: ArgType<D>, T3: ArgType<D>, T4: ArgType<D>, T5: ArgType<D>,
    T6: ArgType<D>, T7: ArgType<D>, T8: ArgType<D>, T9: ArgType<D>, T10: ArgType<D>,
    T11: ArgType<D>, D: DynArgLoader,
> ArgType<D> for MultiArg12<T0, T1, T2, T3, T4, T5, T6, T7, T8, T9, T10, T11> {
    /// Each argument is loaded from what the ones before it left; the
    /// first error ends the loading.
    open spec fn load_spec(args: Seq<Seq<u8>>) -> Result<((
        T0::V, T1::V, T2::V, T3::V, T4::V, T5::V, T6::V, T7::V, T8::V, T9::V, T10::V, T11::V,
    ), nat), SCError> {
        let r0 = T0::load_spec(args);
        let n1 = r0->Ok_0.1;
        let r1 = T1::load_spec(args.skip(n1 as int));
        let n2 = n1 + r1->Ok_0.1;
        let r2 = T2::load_spec(args.skip(n2 as int));
        let n3 = n2 + r2->Ok_0.1;
        let r3 = T3::load_spec(args.skip(n3 as int));
        let n4 = n3 + r3->Ok_0.1;
        let r4 = T4::load_spec(args.skip(n4 as int));
        let n5 = n4 + r4->Ok_0.1;
        let r5 = T5::load_spec(args.skip(n5 as int));
        let n6 = n5 + r5->Ok_0.1;
        let r6 = T6::load_spec(args.skip(n6 as int));
        let n7 = n6 + r6->Ok_0.1;
        let r7 = T7::load_spec(args.skip(n7 as int));
        let n8 = n7 + r7->Ok_0.1;
        let r8 = T8::load_spec(args.skip(n8 as int));
        let n9 = n8 + r8->Ok_0.1;
        let r9 = T9::load_spec(args.skip(n9 as int));
        let n10 = n9 + r9->Ok_0.1;
        let r10 = T10::load_spec(args.skip(n10 as int));
        let n11 = n10 + r10->Ok_0.1;
        let r11 = T11::load_spec(args.skip(n11 as int));
        let n12 = n11 + r11->Ok_0.1;
        if r0 is Err {
            Err(r0->Err_0)
        } else if r1 is Err {
            Err(r1->Err_0)
        } else if r2 is Err {
            Err(r2->Err_0)
        } else if r3 is Err {
            Err(r3->Err_0)
        } else if r4 is Err {
            Err(r4->Err_0)
        } else if r5 is Err {
            Err(r5->Err_0)
        } else if r6 is Err {
            Err(r6->Err_0)
        } else if r7 is Err {
            Err(r7->Err_0)
        } else if r8 is Err {
            Err(r8->Err_0)
        } else if r9 is Err {
            Err(r9->Err_0)
        } else if r10 is Err {
            Err(r10->Err_0)
        } else if r11 is Err {
            Err(r11->Err_0)
        } else {
            Ok(((
                r0->Ok_0.0, r1->Ok_0.0, r2->Ok_0.0, r3->Ok_0.0, r4->Ok_0.0, r5->Ok_0.0, r6->Ok_0.0,
                r7->Ok_0.0, r8->Ok_0.0, r9->Ok_0.0, r10->Ok_0.0, r11->Ok_0.0,
            ), n12))
        }
    }

    proof fn lemma_load_bound(args: Seq<Seq<u8>>) {
        T0::lemma_load_bound(args);
        let n1 = T0::load_spec(args)->Ok_0.1;
        T1::lemma_load_bound(args.skip(n1 as int));
        let n2 = n1 + T1::load_spec(args.skip(n1 as int))->Ok_0.1;
        T2::lemma_load_bound(args.skip(n2 as int));
        let n3 = n2 + T2::load_spec(args.skip(n2 as int))->Ok_0.1;
        T3::lemma_load_bound(args.skip(n3 as int));
        let n4 = n3 + T3::load_spec(args.skip(n3 as int))->Ok_0.1;
        T4::lemma_load_bound(args.skip(n4 as int));
        let n5 = n4 + T4::load_spec(args.skip(n4 as int))->Ok_0.1;
        T5::lemma_load_bound(args.skip(n5 as int));
        let n6 = n5 + T5::load_spec(args.skip(n5 as int))->Ok_0.1;
        T6::lemma_load_bound(args.skip(n6 as int));
        let n7 = n6 + T6::load_spec(args.skip(n6 as int))->Ok_0.1;
        T7::lemma_load_bound(args.skip(n7 as int));
        let n8 = n7 + T7::load_spec(args.skip(n7 as int))->Ok_0.1;
        T8::lemma_load_bound(args.skip(n8 as int));
        let n9 = n8 + T8::load_spec(args.skip(n8 as int))->Ok_0.1;
        T9::lemma_load_bound(args.skip(n9 as int));
        let n10 = n9 + T9::load_spec(args.skip(n9 as int))->Ok_0.1;
        T10::lemma_load_bound(args.skip(n10 as int));
        let n11 = n10 + T10::load_spec(args.skip(n10 as int))->Ok_0.1;
        T11::lemma_load_bound(args.skip(n11 as int));
    }

    fn load(loader: &mut D, arg_id: ArgId) -> (r: Result<Self, SCError>) {
        let ghost all = loader.remaining();
        proof {
            assert(all.skip(0) =~= all);
        }
        let a0 = load_part::<T0, D>(loader, arg_id, Ghost(all), Ghost(0))?;
        let ghost n1 = T0::load_spec(all)->Ok_0.1;
        let a1 = load_part::<T1, D>(loader, arg_id, Ghost(all), Ghost(n1))?;
        let ghost n2 = n1 + T1::load_spec(all.skip(n1 as int))->Ok_0.1;
        let a2 = load_part::<T2, D>(loader, arg_id, Ghost(all), Ghost(n2))?;
        let ghost n3 = n2 + T2::load_spec(all.skip(n2 as int))->Ok_0.1;
        let a3 = load_part::<T3, D>(loader, arg_id, Ghost(all), Ghost(n3))?;
        let ghost n4 = n3 + T3::load_spec(all.skip(n3 as int))->Ok_0.1;
        let a4 = load_part::<T4, D>(loader, arg_id, Ghost(all), Ghost(n4))?;
        let ghost n5 = n4 + T4::load_spec(all.skip(n4 as int))->Ok_0.1;
        let a5 = load_part::<T5, D>(loader, arg_id, Ghost(all), Ghost(n5))?;
        let ghost n6 = n5 + T5::load_spec(all.skip(n5 as int))->Ok_0.1;
        let a6 = load_part::<T6, D>(loader, arg_id, Ghost(all), Ghost(n6))?;
        let ghost n7 = n6 + T6::load_spec(all.skip(n6 as int))->Ok_0.1;
        let a7 = load_part::<T7, D>(loader, arg_id, Ghost(all), Ghost(n7))?;
        let ghost n8 = n7 + T7::load_spec(all.skip(n7 as int))->Ok_0.1;
        let a8 = load_part::<T8, D>(loader, arg_id, Ghost(all), Ghost(n8))?;
        let ghost n9 = n8 + T8::load_spec(all.skip(n8 as int))->Ok_0.1;
        let a9 = load_part::<T9, D>(loader, arg_id, Ghost(all), Ghost(n9))?;
        let ghost n10 = n9 + T9::load_spec(all.skip(n9 as int))->Ok_0.1;
        let a10 = load_part::<T10, D>(loader, arg_id, Ghost(all), Ghost(n10))?;
        let ghost n11 = n10 + T10::load_spec(all.skip(n10 as int))->Ok_0.1;
        let a11 = load_part::<T11, D>(loader, arg_id, Ghost(all), Ghost(n11))?;
        Ok(MultiArg12((a0, a1, a2, a3, a4, a5, a6, a7, a8, a9, a10, a11)))
    }
}

impl<
    T0: TakesArg<D>, T1: ArgType<D>, T2: ArgType<D>, T3: ArgType<D>, T4: ArgType<D>,
    T5: ArgType<D>, T6: ArgType<D>, T7: ArgType<D>, T8: ArgType<D>, T9: ArgType<D>,
    T10: ArgType<D>, T11: ArgType<D>, D: DynArgLoader,
> TakesArg<D> for MultiArg12<T0, T1, T2, T3, T4, T5, T6, T7, T8, T9, T10, T11> {
    proof fn lemma_takes_arg(args: Seq<Seq<u8>>) {
        T0::lemma_takes_arg(args);
    }
}

/// Loading twelve decodable arguments uses exactly twelve raw arguments
/// where that many are there, however many follow; with fewer the
/// loading ends with a wrong number of arguments. So the loading leaves
/// nothing behind just where exactly twelve raw arguments were given.
pub proof fn lemma_multi_arg12_count<
    T0: Decode, T1: Decode, T2: Decode, T3: Decode, T4: Decode, T5: Decode, T6: Decode, T7: Decode,
    T8: Decode, T9: Decode, T10: Decode, T11: Decode, D: DynArgLoader,
>(args: Seq<Seq<u8>>)
    requires
        args.len() > 0 ==> T0::top_decoded(args[0]) is Ok,
        args.len() > 1 ==> T1::top_decoded(args[1]) is Ok,
        args.len() > 2 ==> T2::top_decoded(args[2]) is Ok,
        args.len() > 3 ==> T3::top_decoded(args[3]) is Ok,
        args.len() > 4 ==> T4::top_decoded(args[4]) is Ok,
        args.len() > 5 ==> T5::top_decoded(args[5]) is Ok,
        args.len() > 6 ==> T6::top_decoded(args[6]) is Ok,
        args.len() > 7 ==> T7::top_decoded(args[7]) is Ok,
        args.len() > 8 ==> T8::top_decoded(args[8]) is Ok,
        args.len() > 9 ==> T9::top_decoded(args[9]) is Ok,
        args.len() > 10 ==> T10::top_decoded(args[10]) is Ok,
        args.len() > 11 ==> T11::top_decoded(args[11]) is Ok,
    ensures
        ({
            let loaded = <MultiArg12<
                T0, T1, T2, T3, T4, T5, T6, T7, T8, T9, T10, T11,
            > as ArgType<D>>::load_spec(args);
            &&& args.len() >= 12 ==> (loaded matches Ok((_, k)) && k == 12)
            &&& args.len() < 12 ==> loaded is Err && loaded->Err_0 == SCError::ArgWrongNumber
            &&& (loaded matches Ok((_, k)) && k == args.len()) <==> args.len() == 12
        }),
{
    if args.len() > 1 {
        assert(args.skip(1)[0] == args[1]);
    }
    if args.len() > 2 {
        assert(args.skip(2)[0] == args[2]);
    }
    if args.len() > 3 {
        assert(args.skip(3)[0] == args[3]);
    }
    if args.len() > 4 {
        assert(args.skip(4)[0] == args[4]);
    }
    if args.len() > 5 {
        assert(args.skip(5)[0] == args[5]);
    }
    if args.len() > 6 {
        assert(args.skip(6)[0] == args[6]);
    }
    if args.len() > 7 {
        assert(args.skip(7)[0] == args[7]);
    }
    if args.len() > 8 {
        assert(args.skip(8)[0] == args[8]);
    }
    if args.len() > 9 {
        assert(args.skip(9)[0] == args[9]);
    }
    if args.len() > 10 {
        assert(args.skip(10)[0] == args[10]);
    }
    if args.len() > 11 {
        assert(args.skip(11)[0] == args[11]);
    }
}

/// Thirteen arguments, each of its own type, loaded in their order.
pub struct MultiArg13<
    T0, T1, T2, T3, T4, T5, T6, T7, T8, T9, T10, T11, T12,
>(pub (T0, T1, T2, T3, T4, T5, T6, T7, T8, T9, T10, T11, T12));

impl<
    T0: View, T1: View, T2: View, T3: View, T4: View, T5: View, T6: View, T7: View, T8: View,
    T9: View, T10: View, T11: View, T12: View,
> View for MultiArg13<T0, T1, T2, T3, T4, T5, T6, T7, T8, T9, T10, T11, T12> {
    type V = (
        T0::V, T1::V, T2::V, T3::V, T4::V, T5::V, T6::V, T7::V, T8::V, T9::V, T10::V, T11::V,
        T12::V,
    );

    open spec fn view(&self) -> (
        T0::V, T1::V, T2::V, T3::V, T4::V, T5::V, T6::V, T7::V, T8::V, T9::V, T10::V, T11::V,
        T12::V,
    ) {
        (
            self.0.0@, self.0.1@, self.0.2@, self.0.3@, self.0.4@, self.0.5@, self.0.6@, self.0.7@,
            self.0.8@, self.0.9@, self.0.10@, self.0.11@, self.0.12@,
        )
    }
}

impl<
    T0, T1, T2, T3, T4, T5, T6, T7, T8, T9, T10, T11, T12,
> MultiArg13<T0, T1, T2, T3, T4, T5, T6, T7, T8, T9, T10, T11, T12> {
    /// The arguments as a tuple.
    pub fn into_tuple(self) -> (r: (T0, T1, T2, T3, T4, T5, T6, T7, T8, T9, T10, T11, T12))
        ensures
            r == self.0,
    {
        self.0
    }
}

impl<
    T0: ArgType<D>, T1: ArgType<D>, T2: ArgType<D>, T3: ArgType<D>, T4: ArgType<D>, T5: ArgType<D>,
    T6: ArgType<D>, T7: ArgType<D>, T8: ArgType<D>, T9: ArgType<D>, T10: ArgType<D>,
    T11: ArgType<D>, T12: ArgType<D>, D: DynArgLoader,
> ArgType<D> for MultiArg13<T0, T1, T2, T3, T4, T5, T6, T7, T8, T9, T10, T11, T12> {
    /// Each argument is loaded from what the ones before it left; the
    /// first error ends the loading.
    open spec fn load_spec(args: Seq<Seq<u8>>) -> Result<((
        T0::V, T1::V, T2::V, T3::V, T4::V, T5::V, T6::V, T7::V, T8::V, T9::V, T10::V, T11::V,
        T12::V,
    ), nat), SCError> {
        let r0 = T0::load_spec(args);
        let n1 = r0->Ok_0.1;
        let r1 = T1::load_spec(args.skip(n1 as int));
        let n2 = n1 + r1->Ok_0.1;
        let r2 = T2::load_spec(args.skip(n2 as int));
        let n3 = n2 + r2->Ok_0.1;
        let r3 = T3::load_spec(args.skip(n3 as int));
        let n4 = n3 + r3->Ok_0.1;
        let r4 = T4::load_spec(args.skip(n4 as int));
        let n5 = n4 + r4->Ok_0.1;
        let r5 = T5::load_spec(args.skip(n5 as int));
        let n6 = n5 + r5->Ok_0.1;
        let r6 = T6::load_spec(args.skip(n6 as int));
        let n7 = n6 + r6->Ok_0.1;
        let r7 = T7::load_spec(args.skip(n7 as int));
        let n8 = n7 + r7->Ok_0.1;
        let r8 = T8::load_spec(args.skip(n8 as int));
        let n9 = n8 + r8->Ok_0.1;
        let r9 = T9::load_spec(args.skip(n9 as int));
        let n10 = n9 + r9->Ok_0.1;
        let r10 = T10::load_spec(args.skip(n10 as int));
        let n11 = n10 + r10->Ok_0.1;
        let r11 = T11::load_spec(args.skip(n11 as int));
        let n12 = n11 + r11->Ok_0.1;
        let r12 = T12::load_spec(args.skip(n12 as int));
        let n13 = n12 + r12->Ok_0.1;
        if r0 is Err {
            Err(r0->Err_0)
        } else if r1 is Err {
            Err(r1->Err_0)
        } else if r2 is Err {
            Err(r2->Err_0)
        } else if r3 is Err {
            Err(r3->Err_0)
        } else if r4 is Err {
            Err(r4->Err_0)
        } else if r5 is Err {
            Err(r5->Err_0)
        } else if r6 is Err {
            Err(r6->Err_0)
        } else if r7 is Err {
            Err(r7->Err_0)
        } else if r8 is Err {
            Err(r8->Err_0)
        } else if r9 is Err {
            Err(r9->Err_0)
        } else if r10 is Err {
            Err(r10->Err_0)
        } else if r11 is Err {
            Err(r11->Err_0)
        } else if r12 is Err {
            Err(r12->Err_0)
        } else {
            Ok(((
                r0->Ok_0.0, r1->Ok_0.0, r2->Ok_0.0, r3->Ok_0.0, r4->Ok_0.0, r5->Ok_0.0, r6->Ok_0.0,
                r7->Ok_0.0, r8->Ok_0.0, r9->Ok_0.0, r10->Ok_0.0, r11->Ok_0.0, r12->Ok_0.0,
            ), n13))
        }
    }

    proof fn lemma_load_bound(args: Seq<Seq<u8>>) {
        T0::lemma_load_bound(args);
        let n1 = T0::load_spec(args)->Ok_0.1;
        T1::lemma_load_bound(args.skip(n1 as int));
        let n2 = n1 + T1::load_spec(args.skip(n1 as int))->Ok_0.1;
        T2::lemma_load_bound(args.skip(n2 as int));
        let n3 = n2 + T2::load_spec(args.skip(n2 as int))->Ok_0.1;
        T3::lemma_load_bound(args.skip(n3 as int));
        let n4 = n3 + T3::load_spec(args.skip(n3 as int))->Ok_0.1;
        T4::lemma_load_bound(args.skip(n4 as int));
        let n5 = n4 + T4::load_spec(args.skip(n4 as int))->Ok_0.1;
        T5::lemma_load_bound(args.skip(n5 as int));
        let n6 = n5 + T5::load_spec(args.skip(n5 as int))->Ok_0.1;
        T6::lemma_load_bound(args.skip(n6 as int));
        let n7 = n6 + T6::load_spec(args.skip(n6 as int))->Ok_0.1;
        T7::lemma_load_bound(args.skip(n7 as int));
        let n8 = n7 + T7::load_spec(args.skip(n7 as int))->Ok_0.1;
        T8::lemma_load_bound(args.skip(n8 as int));
        let n9 = n8 + T8::load_spec(args.skip(n8 as int))->Ok_0.1;
        T9::lemma_load_bound(args.skip(n9 as int));
        let n10 = n9 + T9::load_spec(args.skip(n9 as int))->Ok_0.1;
        T10::lemma_load_bound(args.skip(n10 as int));
        let n11 = n10 + T10::load_spec(args.skip(n10 as int))->Ok_0.1;
        T11::lemma_load_bound(args.skip(n11 as int));
        let n12 = n11 + T11::load_spec(args.skip(n11 as int))->Ok_0.1;
        T12::lemma_load_bound(args.skip(n12 as int));
    }

    fn load(loader: &mut D, arg_id: ArgId) -> (r: Result<Self, SCError>) {
        let ghost all = loader.remaining();
        proof {
            assert(all.skip(0) =~= all);
        }
        let a0 = load_part::<T0, D>(loader, arg_id, Ghost(all), Ghost(0))?;
        let ghost n1 = T0::load_spec(all)->Ok_0.1;
        let a1 = load_part::<T1, D>(loader, arg_id, Ghost(all), Ghost(n1))?;
        let ghost n2 = n1 + T1::load_spec(all.skip(n1 as int))->Ok_0.1;
        let a2 = load_part::<T2, D>(loader, arg_id, Ghost(all), Ghost(n2))?;
        let ghost n3 = n2 + T2::load_spec(all.skip(n2 as int))->Ok_0.1;
        let a3 = load_part::<T3, D>(loader, arg_id, Ghost(all), Ghost(n3))?;
        let ghost n4 = n3 + T3::load_spec(all.skip(n3 as int))->Ok_0.1;
        let a4 = load_part::<T4, D>(loader, arg_id, Ghost(all), Ghost(n4))?;
        let ghost n5 = n4 + T4::load_spec(all.skip(n4 as int))->Ok_0.1;
        let a5 = load_part::<T5, D>(loader, arg_id, Ghost(all), Ghost(n5))?;
        let ghost n6 = n5 + T5::load_spec(all.skip(n5 as int))->Ok_0.1;
        let a6 = load_part::<T6, D>(loader, arg_id, Ghost(all), Ghost(n6))?;
        let ghost n7 = n6 + T6::load_spec(all.skip(n6 as int))->Ok_0.1;
        let a7 = load_part::<T7, D>(loader, arg_id, Ghost(all), Ghost(n7))?;
        let ghost n8 = n7 + T7::load_spec(all.skip(n7 as int))->Ok_0.1;
        let a8 = load_part::<T8, D>(loader, arg_id, Ghost(all), Ghost(n8))?;
        let ghost n9 = n8 + T8::load_spec(all.skip(n8 as int))->Ok_0.1;
        let a9 = load_part::<T9, D>(loader, arg_id, Ghost(all), Ghost(n9))?;
        let ghost n10 = n9 + T9::load_spec(all.skip(n9 as int))->Ok_0.1;
        let a10 = load_part::<T10, D>(loader, arg_id, Ghost(all), Ghost(n10))?;
        let ghost n11 = n10 + T10::load_spec(all.skip(n10 as int))->Ok_0.1;
        let a11 = load_part::<T11, D>(loader, arg_id, Ghost(all), Ghost(n11))?;
        let ghost n12 = n11 + T11::load_spec(all.skip(n11 as int))->Ok_0.1;
        let a12 = load_part::<T12, D>(loader, arg_id, Ghost(all), Ghost(n12))?;
        Ok(MultiArg13((a0, a1, a2, a3, a4, a5, a6, a7, a8, a9, a10, a11, a12)))
    }
}

impl<
    T0: TakesArg<D>, T1: ArgType<D>, T2: ArgType<D>, T3: ArgType<D>, T4: ArgType<D>,
    T5: ArgType<D>, T6: ArgType<D>, T7: ArgType<D>, T8: ArgType<D>, T9: ArgType<D>,
    T10: ArgType<D>, T11: ArgType<D>, T12: ArgType<D>, D: DynArgLoader,
> TakesArg<D> for MultiArg13<T0, T1, T2, T3, T4, T5, T6, T7, T8, T9, T10, T11, T12> {
    proof fn lemma_takes_arg(args: Seq<Seq<u8>>) {
        T0::lemma_takes_arg(args);
    }
}

/// Loading thirteen decodable arguments uses exactly thirteen raw arguments
/// where that many are there, however many follow; with fewer the
/// loading ends with a wrong number of arguments. So the loading leaves
/// nothing behind just where exactly thirteen raw arguments were given.
pub proof fn lemma_multi_arg13_count<
    T0: Decode, T1: Decode, T2: Decode, T3: Decode, T4: Decode, T5: Decode, T6: Decode, T7: Decode,
    T8: Decode, T9: Decode, T10: Decode, T11: Decode, T12: Decode, D: DynArgLoader,
>(args: Seq<Seq<u8>>)
    requires
        args.len() > 0 ==> T0::top_decoded(args[0]) is Ok,
        args.len() > 1 ==> T1::top_decoded(args[1]) is Ok,
        args.len() > 2 ==> T2::top_decoded(args[2]) is Ok,
        args.len() > 3 ==> T3::top_decoded(args[3]) is Ok,
        args.len() > 4 ==> T4::top_decoded(args[4]) is Ok,
        args.len() > 5 ==> T5::top_decoded(args[5]) is Ok,
        args.len() > 6 ==> T6::top_decoded(args[6]) is Ok,
        args.len() > 7 ==> T7::top_decoded(args[7]) is Ok,
        args.len() > 8 ==> T8::top_decoded(args[8]) is Ok,
        args.len() > 9 ==> T9::top_decoded(args[9]) is Ok,
        args.len() > 10 ==> T10::top_decoded(args[10]) is Ok,
        args.len() > 11 ==> T11::top_decoded(args[11]) is Ok,
        args.len() > 12 ==> T12::top_decoded(args[12]) is Ok,
    ensures
        ({
            let loaded = <MultiArg13<
                T0, T1, T2, T3, T4, T5, T6, T7, T8, T9, T10, T11, T12,
            > as ArgType<D>>::load_spec(args);
            &&& args.len() >= 13 ==> (loaded matches Ok((_, k)) && k == 13)
            &&& args.len() < 13 ==> loaded is Err && loaded->Err_0 == SCError::ArgWrongNumber
            &&& (loaded matches Ok((_, k)) && k == args.len()) <==> args.len() == 13
        }),
{
    if args.len() > 1 {
        assert(args.skip(1)[0] == args[1]);
    }
    if args.len() > 2 {
        assert(args.skip(2)[0] == args[2]);
    }
    if args.len() > 3 {
        assert(args.skip(3)[0] == args[3]);
    }
    if args.len() > 4 {
        assert(args.skip(4)[0] == args[4]);
    }
    if args.len() > 5 {
        assert(args.skip(5)[0] == args[5]);
    }
    if args.len() > 6 {
        assert(args.skip(6)[0] == args[6]);
    }
    if args.len() > 7 {
        assert(args.skip(7)[0] == args[7]);
    }
    if args.len() > 8 {
        assert(args.skip(8)[0] == args[8]);
    }
    if args.len() > 9 {
        assert(args.skip(9)[0] == args[9]);
    }
    if args.len() > 10 {
        assert(args.skip(10)[0] == args[10]);
    }
    if args.len() > 11 {
        assert(args.skip(11)[0] == args[11]);
    }
    if args.len() > 12 {
        assert(args.skip(12)[0] == args[12]);
    }
}

/// Fourteen arguments, each of its own type, loaded in their order.
pub struct MultiArg14<
    T0, T1, T2, T3, T4, T5, T6, T7, T8, T9, T10, T11, T12, T13,
>(pub (T0, T1, T2, T3, T4, T5, T6, T7, T8, T9, T10, T11, T12, T13));

impl<
    T0: View, T1: View, T2: View, T3: View, T4: View, T5: View, T6: View, T7: View, T8: View,
    T9: View, T10: View, T11: View, T12: View, T13: View,
> View for MultiArg14<T0, T1, T2, T3, T4, T5, T6, T7, T8, T9, T10, T11, T12, T13> {
    type V = (
        T0::V, T1::V, T2::V, T3::V, T4::V, T5::V, T6::V, T7::V, T8::V, T9::V, T10::V, T11::V,
        T12::V, T13::V,
    );

    open spec fn view(&self) -> (
        T0::V, T1::V, T2::V, T3::V, T4::V, T5::V, T6::V, T7::V, T8::V, T9::V, T10::V, T11::V,
        T12::V, T13::V,
    ) {
        (
            self.0.0@, self.0.1@, self.0.2@, self.0.3@, self.0.4@, self.0.5@, self.0.6@, self.0.7@,
            self.0.8@, self.0.9@, self.0.10@, self.0.11@, self.0.12@, self.0.13@,
        )
    }
}

impl<
    T0, T1, T2, T3, T4, T5, T6, T7, T8, T9, T10, T11, T12, T13,
> MultiArg14<T0, T1, T2, T3, T4, T5, T6, T7, T8, T9, T10, T11, T12, T13> {
    /// The arguments as a tuple.
    pub fn into_tuple(self) -> (r: (T0, T1, T2, T3, T4, T5, T6, T7, T8, T9, T10, T11, T12, T13))
        ensures
            r == self.0,
    {
        self.0
    }
}

impl<
    T0: ArgType<D>, T1: ArgType<D>, T2: ArgType<D>, T3: ArgType<D>, T4: ArgType<D>, T5: ArgType<D>,
    T6: ArgType<D>, T7: ArgType<D>, T8: ArgType<D>, T9: ArgType<D>, T10: ArgType<D>,
    T11: ArgType<D>, T12: ArgType<D>, T13: ArgType<D>, D: DynArgLoader,
> ArgType<D> for MultiArg14<T0, T1, T2, T3, T4, T5, T6, T7, T8, T9, T10, T11, T12, T13> {
    /// Each argument is loaded from what the ones before it left; the
    /// first error ends the loading.
    open spec fn load_spec(args: Seq<Seq<u8>>) -> Result<((
        T0::V, T1::V, T2::V, T3::V, T4::V, T5::V, T6::V, T7::V, T8::V, T9::V, T10::V, T11::V,
        T12::V, T13::V,
    ), nat), SCError> {
        let r0 = T0::load_spec(args);
        let n1 = r0->Ok_0.1;
        let r1 = T1::load_spec(args.skip(n1 as int));
        let n2 = n1 + r1->Ok_0.1;
        let r2 = T2::load_spec(args.skip(n2 as int));
        let n3 = n2 + r2->Ok_0.1;
        let r3 = T3::load_spec(args.skip(n3 as int));
        let n4 = n3 + r3->Ok_0.1;
        let r4 = T4::load_spec(args.skip(n4 as int));
        let n5 = n4 + r4->Ok_0.1;
        let r5 = T5::load_spec(args.skip(n5 as int));
        let n6 = n5 + r5->Ok_0.1;
        let r6 = T6::load_spec(args.skip(n6 as int));
        let n7 = n6 + r6->Ok_0.1;
        let r7 = T7::load_spec(args.skip(n7 as int));
        let n8 = n7 + r7->Ok_0.1;
        let r8 = T8::load_spec(args.skip(n8 as int));
        let n9 = n8 + r8->Ok_0.1;
        let r9 = T9::load_spec(args.skip(n9 as int));
        let n10 = n9 + r9->Ok_0.1;
        let r10 = T10::load_spec(args.skip(n10 as int));
        let n11 = n10 + r10->Ok_0.1;
        let r11 = T11::load_spec(args.skip(n11 as int));
        let n12 = n11 + r11->Ok_0.1;
        let r12 = T12::load_spec(args.skip(n12 as int));
        let n13 = n12 + r12->Ok_0.1;
        let r13 = T13::load_spec(args.skip(n13 as int));
        let n14 = n13 + r13->Ok_0.1;
        if r0 is Err {
            Err(r0->Err_0)
        } else if r1 is Err {
            Err(r1->Err_0)
        } else if r2 is Err {
            Err(r2->Err_0)
        } else if r3 is Err {
            Err(r3->Err_0)
        } else if r4 is Err {
            Err(r4->Err_0)
        } else if r5 is Err {
            Err(r5->Err_0)
        } else if r6 is Err {
            Err(r6->Err_0)
        } else if r7 is Err {
            Err(r7->Err_0)
        } else if r8 is Err {
            Err(r8->Err_0)
        } else if r9 is Err {
            Err(r9->Err_0)
        } else if r10 is Err {
            Err(r10->Err_0)
        } else if r11 is Err {
            Err(r11->Err_0)
        } else if r12 is Err {
            Err(r12->Err_0)
        } else if r13 is Err {
            Err(r13->Err_0)
        } else {
            Ok(((
                r0->Ok_0.0, r1->Ok_0.0, r2->Ok_0.0, r3->Ok_0.0, r4->Ok_0.0, r5->Ok_0.0, r6->Ok_0.0,
                r7->Ok_0.0, r8->Ok_0.0, r9->Ok_0.0, r10->Ok_0.0, r11->Ok_0.0, r12->Ok_0.0,
                r13->Ok_0.0,
            ), n14))
        }
    }

    proof fn lemma_load_bound(args: Seq<Seq<u8>>) {
        T0::lemma_load_bound(args);
        let n1 = T0::load_spec(args)->Ok_0.1;
        T1::lemma_load_bound(args.skip(n1 as int));
        let n2 = n1 + T1::load_spec(args.skip(n1 as int))->Ok_0.1;
        T2::lemma_load_bound(args.skip(n2 as int));
        let n3 = n2 + T2::load_spec(args.skip(n2 as int))->Ok_0.1;
        T3::lemma_load_bound(args.skip(n3 as int));
        let n4 = n3 + T3::load_spec(args.skip(n3 as int))->Ok_0.1;
        T4::lemma_load_bound(args.skip(n4 as int));
        let n5 = n4 + T4::load_spec(args.skip(n4 as int))->Ok_0.1;
        T5::lemma_load_bound(args.skip(n5 as int));
        let n6 = n5 + T5::load_spec(args.skip(n5 as int))->Ok_0.1;
        T6::lemma_load_bound(args.skip(n6 as int));
        let n7 = n6 + T6::load_spec(args.skip(n6 as int))->Ok_0.1;
        T7::lemma_load_bound(args.skip(n7 as int));
        let n8 = n7 + T7::load_spec(args.skip(n7 as int))->Ok_0.1;
        T8::lemma_load_bound(args.skip(n8 as int));
        let n9 = n8 + T8::load_spec(args.skip(n8 as int))->Ok_0.1;
        T9::lemma_load_bound(args.skip(n9 as int));
        let n10 = n9 + T9::load_spec(args.skip(n9 as int))->Ok_0.1;
        T10::lemma_load_bound(args.skip(n10 as int));
        let n11 = n10 + T10::load_spec(args.skip(n10 as int))->Ok_0.1;
        T11::lemma_load_bound(args.skip(n11 as int));
        let n12 = n11 + T11::load_spec(args.skip(n11 as int))->Ok_0.1;
        T12::lemma_load_bound(args.skip(n12 as int));
        let n13 = n12 + T12::load_spec(args.skip(n12 as int))->Ok_0.1;
        T13::lemma_load_bound(args.skip(n13 as int));
    }

    fn load(loader: &mut D, arg_id: ArgId) -> (r: Result<Self, SCError>) {
        let ghost all = loader.remaining();
        proof {
            assert(all.skip(0) =~= all);
        }
        let a0 = load_part::<T0, D>(loader, arg_id, Ghost(all), Ghost(0))?;
        let ghost n1 = T0::load_spec(all)->Ok_0.1;
        let a1 = load_part::<T1, D>(loader, arg_id, Ghost(all), Ghost(n1))?;
        let ghost n2 = n1 + T1::load_spec(all.skip(n1 as int))->Ok_0.1;
        let a2 = load_part::<T2, D>(loader, arg_id, Ghost(all), Ghost(n2))?;
        let ghost n3 = n2 + T2::load_spec(all.skip(n2 as int))->Ok_0.1;
        let a3 = load_part::<T3, D>(loader, arg_id, Ghost(all), Ghost(n3))?;
        let ghost n4 = n3 + T3::load_spec(all.skip(n3 as int))->Ok_0.1;
        let a4 = load_part::<T4, D>(loader, arg_id, Ghost(all), Ghost(n4))?;
        let ghost n5 = n4 + T4::load_spec(all.skip(n4 as int))->Ok_0.1;
        let a5 = load_part::<T5, D>(loader, arg_id, Ghost(all), Ghost(n5))?;
        let ghost n6 = n5 + T5::load_spec(all.skip(n5 as int))->Ok_0.1;
        let a6 = load_part::<T6, D>(loader, arg_id, Ghost(all), Ghost(n6))?;
        let ghost n7 = n6 + T6::load_spec(all.skip(n6 as int))->Ok_0.1;
        let a7 = load_part::<T7, D>(loader, arg_id, Ghost(all), Ghost(n7))?;
        let ghost n8 = n7 + T7::load_spec(all.skip(n7 as int))->Ok_0.1;
        let a8 = load_part::<T8, D>(loader, arg_id, Ghost(all), Ghost(n8))?;
        let ghost n9 = n8 + T8::load_spec(all.skip(n8 as int))->Ok_0.1;
        let a9 = load_part::<T9, D>(loader, arg_id, Ghost(all), Ghost(n9))?;
        let ghost n10 = n9 + T9::load_spec(all.skip(n9 as int))->Ok_0.1;
        let a10 = load_part::<T10, D>(loader, arg_id, Ghost(all), Ghost(n10))?;
        let ghost n11 = n10 + T10::load_spec(all.skip(n10 as int))->Ok_0.1;
        let a11 = load_part::<T11, D>(loader, arg_id, Ghost(all), Ghost(n11))?;
        let ghost n12 = n11 + T11::load_spec(all.skip(n11 as int))->Ok_0.1;
        let a12 = load_part::<T12, D>(loader, arg_id, Ghost(all), Ghost(n12))?;
        let ghost n13 = n12 + T12::load_spec(all.skip(n12 as int))->Ok_0.1;
        let a13 = load_part::<T13, D>(loader, arg_id, Ghost(all), Ghost(n13))?;
        Ok(MultiArg14((a0, a1, a2, a3, a4, a5, a6, a7, a8, a9, a10, a11, a12, a13)))
    }
}

impl<
    T0: TakesArg<D>, T1: ArgType<D>, T2: ArgType<D>, T3: ArgType<D>, T4: ArgType<D>,
    T5: ArgType<D>, T6: ArgType<D>, T7: ArgType<D>, T8: ArgType<D>, T9: ArgType<D>,
    T10: ArgType<D>, T11: ArgType<D>, T12: ArgType<D>, T13: ArgType<D>, D: DynArgLoader,
> TakesArg<D> for MultiArg14<T0, T1, T2, T3, T4, T5, T6, T7, T8, T9, T10, T11, T12, T13> {
    proof fn lemma_takes_arg(args: Seq<Seq<u8>>) {
        T0::lemma_takes_arg(args);
    }
}

/// Loading fourteen decodable arguments uses exactly fourteen raw arguments
/// where that many are there, however many follow; with fewer the
/// loading ends with a wrong number of arguments. So the loading leaves
/// nothing behind just where exactly fourteen raw arguments were given.
pub proof fn lemma_multi_arg14_count<
    T0: Decode, T1: Decode, T2: Decode, T3: Decode, T4: Decode, T5: Decode, T6: Decode, T7: Decode,
    T8: Decode, T9: Decode, T10: Decode, T11: Decode, T12: Decode, T13: Decode, D: DynArgLoader,
>(args: Seq<Seq<u8>>)
    requires
        args.len() > 0 ==> T0::top_decoded(args[0]) is Ok,
        args.len() > 1 ==> T1::top_decoded(args[1]) is Ok,
        args.len() > 2 ==> T2::top_decoded(args[2]) is Ok,
        args.len() > 3 ==> T3::top_decoded(args[3]) is Ok,
        args.len() > 4 ==> T4::top_decoded(args[4]) is Ok,
        args.len() > 5 ==> T5::top_decoded(args[5]) is Ok,
        args.len() > 6 ==> T6::top_decoded(args[6]) is Ok,
        args.len() > 7 ==> T7::top_decoded(args[7]) is Ok,
        args.len() > 8 ==> T8::top_decoded(args[8]) is Ok,
        args.len() > 9 ==> T9::top_decoded(args[9]) is Ok,
        args.len() > 10 ==> T10::top_decoded(args[10]) is Ok,
        args.len() > 11 ==> T11::top_decoded(args[11]) is Ok,
        args.len() > 12 ==> T12::top_decoded(args[12]) is Ok,
        args.len() > 13 ==> T13::top_decoded(args[13]) is Ok,
    ensures
        ({
            let loaded = <MultiArg14<
                T0, T1, T2, T3, T4, T5, T6, T7, T8, T9, T10, T11, T12, T13,
            > as ArgType<D>>::load_spec(args);
            &&& args.len() >= 14 ==> (loaded matches Ok((_, k)) && k == 14)
            &&& args.len() < 14 ==> loaded is Err && loaded->Err_0 == SCError::ArgWrongNumber
            &&& (loaded matches Ok((_, k)) && k == args.len()) <==> args.len() == 14
        }),
{
    if args.len() > 1 {
        assert(args.skip(1)[0] == args[1]);
    }
    if args.len() > 2 {
        assert(args.skip(2)[0] == args[2]);
    }
    if args.len() > 3 {
        assert(args.skip(3)[0] == args[3]);
    }
    if args.len() > 4 {
        assert(args.skip(4)[0] == args[4]);
    }
    if args.len() > 5 {
        assert(args.skip(5)[0] == args[5]);
    }
    if args.len() > 6 {
        assert(args.skip(6)[0] == args[6]);
    }
    if args.len() > 7 {
        assert(args.skip(7)[0] == args[7]);
    }
    if args.len() > 8 {
        assert(args.skip(8)[0] == args[8]);
    }
    if args.len() > 9 {
        assert(args.skip(9)[0] == args[9]);
    }
    if args.len() > 10 {
        assert(args.skip(10)[0] == args[10]);
    }
    if args.len() > 11 {
        assert(args.skip(11)[0] == args[11]);
    }
    if args.len() > 12 {
        assert(args.skip(12)[0] == args[12]);
    }
    if args.len() > 13 {
        assert(args.skip(13)[0] == args[13]);
    }
}

/// Fifteen arguments, each of its own type, loaded in their order.
pub struct MultiArg15<
    T0, T1, T2, T3, T4, T5, T6, T7, T8, T9, T10, T11, T12, T13, T14,
>(pub (T0, T1, T2, T3, T4, T5, T6, T7, T8, T9, T10, T11, T12, T13, T14));

impl<
    T0: View, T1: View, T2: View, T3: View, T4: View, T5: View, T6: View, T7: View, T8: View,
    T9: View, T10: View, T11: View, T12: View, T13: View, T14: View,
> View for MultiArg15<T0, T1, T2, T3, T4, T5, T6, T7, T8, T9, T10, T11, T12, T13, T14> {
    type V = (
        T0::V, T1::V, T2::V, T3::V, T4::V, T5::V, T6::V, T7::V, T8::V, T9::V, T10::V, T11::V,
        T12::V, T13::V, T14::V,
    );

    open spec fn view(&self) -> (
        T0::V, T1::V, T2::V, T3::V, T4::V, T5::V, T6::V, T7::V, T8::V, T9::V, T10::V, T11::V,
        T12::V, T13::V, T14::V,
    ) {
        (
            self.0.0@, self.0.1@, self.0.2@, self.0.3@, self.0.4@, self.0.5@, self.0.6@, self.0.7@,
            self.0.8@, self.0.9@, self.0.10@, self.0.11@, self.0.12@, self.0.13@, self.0.14@,
        )
    }
}

impl<
    T0, T1, T2, T3, T4, T5, T6, T7, T8, T9, T10, T11, T12, T13, T14,
> MultiArg15<T0, T1, T2, T3, T4, T5, T6, T7, T8, T9, T10, T11, T12, T13, T14> {
    /// The arguments as a tuple.
    pub fn into_tuple(self) -> (r: (
        T0, T1, T2, T3, T4, T5, T6, T7, T8, T9, T10, T11, T12, T13, T14,
    ))
        ensures
            r == self.0,
    {
        self.0
    }
}

impl<
    T0: ArgType<D>, T1: ArgType<D>, T2: ArgType<D>, T3: ArgType<D>, T4: ArgType<D>, T5: ArgType<D>,
    T6: ArgType<D>, T7: ArgType<D>, T8: ArgType<D>, T9: ArgType<D>, T10: ArgType<D>,
    T11: ArgType<D>, T12: ArgType<D>, T13: ArgType<D>, T14: ArgType<D>, D: DynArgLoader,
> ArgType<D> for MultiArg15<T0, T1, T2, T3, T4, T5, T6, T7, T8, T9, T10, T11, T12, T13, T14> {
    /// Each argument is loaded from what the ones before it left; the
    /// first error ends the loading.
    open spec fn load_spec(args: Seq<Seq<u8>>) -> Result<((
        T0::V, T1::V, T2::V, T3::V, T4::V, T5::V, T6::V, T7::V, T8::V, T9::V, T10::V, T11::V,
        T12::V, T13::V, T14::V,
    ), nat), SCError> {
        let r0 = T0::load_spec(args);
        let n1 = r0->Ok_0.1;
        let r1 = T1::load_spec(args.skip(n1 as int));
        let n2 = n1 + r1->Ok_0.1;
        let r2 = T2::load_spec(args.skip(n2 as int));
        let n3 = n2 + r2->Ok_0.1;
        let r3 = T3::load_spec(args.skip(n3 as int));
        let n4 = n3 + r3->Ok_0.1;
        let r4 = T4::load_spec(args.skip(n4 as int));
        let n5 = n4 + r4->Ok_0.1;
        let r5 = T5::load_spec(args.skip(n5 as int));
        let n6 = n5 + r5->Ok_0.1;
        let r6 = T6::load_spec(args.skip(n6 as int));
        let n7 = n6 + r6->Ok_0.1;
        let r7 = T7::load_spec(args.skip(n7 as int));
        let n8 = n7 + r7->Ok_0.1;
        let r8 = T8::load_spec(args.skip(n8 as int));
        let n9 = n8 + r8->Ok_0.1;
        let r9 = T9::load_spec(args.skip(n9 as int));
        let n10 = n9 + r9->Ok_0.1;
        let r10 = T10::load_spec(args.skip(n10 as int));
        let n11 = n10 + r10->Ok_0.1;
        let r11 = T11::load_spec(args.skip(n11 as int));
        let n12 = n11 + r11->Ok_0.1;
        let r12 = T12::load_spec(args.skip(n12 as int));
        let n13 = n12 + r12->Ok_0.1;
        let r13 = T13::load_spec(args.skip(n13 as int));
        let n14 = n13 + r13->Ok_0.1;
        let r14 = T14::load_spec(args.skip(n14 as int));
        let n15 = n14 + r14->Ok_0.1;
        if r0 is Err {
            Err(r0->Err_0)
        } else if r1 is Err {
            Err(r1->Err_0)
        } else if r2 is Err {
            Err(r2->Err_0)
        } else if r3 is Err {
            Err(r3->Err_0)
        } else if r4 is Err {
            Err(r4->Err_0)
        } else if r5 is Err {
            Err(r5->Err_0)
        } else if r6 is Err {
            Err(r6->Err_0)
        } else if r7 is Err {
            Err(r7->Err_0)
        } else if r8 is Err {
            Err(r8->Err_0)
        } else if r9 is Err {
            Err(r9->Err_0)
        } else if r10 is Err {
            Err(r10->Err_0)
        } else if r11 is Err {
            Err(r11->Err_0)
        } else if r12 is Err {
            Err(r12->Err_0)
        } else if r13 is Err {
            Err(r13->Err_0)
        } else if r14 is Err {
            Err(r14->Err_0)
        } else {
            Ok(((
                r0->Ok_0.0, r1->Ok_0.0, r2->Ok_0.0, r3->Ok_0.0, r4->Ok_0.0, r5->Ok_0.0, r6->Ok_0.0,
                r7->Ok_0.0, r8->Ok_0.0, r9->Ok_0.0, r10->Ok_0.0, r11->Ok_0.0, r12->Ok_0.0,
                r13->Ok_0.0, r14->Ok_0.0,
            ), n15))
        }
    }

    proof fn lemma_load_bound(args: Seq<Seq<u8>>) {
        T0::lemma_load_bound(args);
        let n1 = T0::load_spec(args)->Ok_0.1;
        T1::lemma_load_bound(args.skip(n1 as int));
        let n2 = n1 + T1::load_spec(args.skip(n1 as int))->Ok_0.1;
        T2::lemma_load_bound(args.skip(n2 as int));
        let n3 = n2 + T2::load_spec(args.skip(n2 as int))->Ok_0.1;
        T3::lemma_load_bound(args.skip(n3 as int));
        let n4 = n3 + T3::load_spec(args.skip(n3 as int))->Ok_0.1;
        T4::lemma_load_bound(args.skip(n4 as int));
        let n5 = n4 + T4::load_spec(args.skip(n4 as int))->Ok_0.1;
        T5::lemma_load_bound(args.skip(n5 as int));
        let n6 = n5 + T5::load_spec(args.skip(n5 as int))->Ok_0.1;
        T6::lemma_load_bound(args.skip(n6 as int));
        let n7 = n6 + T6::load_spec(args.skip(n6 as int))->Ok_0.1;
        T7::lemma_load_bound(args.skip(n7 as int));
        let n8 = n7 + T7::load_spec(args.skip(n7 as int))->Ok_0.1;
        T8::lemma_load_bound(args.skip(n8 as int));
        let n9 = n8 + T8::load_spec(args.skip(n8 as int))->Ok_0.1;
        T9::lemma_load_bound(args.skip(n9 as int));
        let n10 = n9 + T9::load_spec(args.skip(n9 as int))->Ok_0.1;
        T10::lemma_load_bound(args.skip(n10 as int));
        let n11 = n10 + T10::load_spec(args.skip(n10 as int))->Ok_0.1;
        T11::lemma_load_bound(args.skip(n11 as int));
        let n12 = n11 + T11::load_spec(args.skip(n11 as int))->Ok_0.1;
        T12::lemma_load_bound(args.skip(n12 as int));
        let n13 = n12 + T12::load_spec(args.skip(n12 as int))->Ok_0.1;
        T13::lemma_load_bound(args.skip(n13 as int));
        let n14 = n13 + T13::load_spec(args.skip(n13 as int))->Ok_0.1;
        T14::lemma_load_bound(args.skip(n14 as int));
    }

    fn load(loader: &mut D, arg_id: ArgId) -> (r: Result<Self, SCError>) {
        let ghost all = loader.remaining();
        proof {
            assert(all.skip(0) =~= all);
        }
        let a0 = load_part::<T0, D>(loader, arg_id, Ghost(all), Ghost(0))?;
        let ghost n1 = T0::load_spec(all)->Ok_0.1;
        let a1 = load_part::<T1, D>(loader, arg_id, Ghost(all), Ghost(n1))?;
        let ghost n2 = n1 + T1::load_spec(all.skip(n1 as int))->Ok_0.1;
        let a2 = load_part::<T2, D>(loader, arg_id, Ghost(all), Ghost(n2))?;
        let ghost n3 = n2 + T2::load_spec(all.skip(n2 as int))->Ok_0.1;
        let a3 = load_part::<T3, D>(loader, arg_id, Ghost(all), Ghost(n3))?;
        let ghost n4 = n3 + T3::load_spec(all.skip(n3 as int))->Ok_0.1;
        let a4 = load_part::<T4, D>(loader, arg_id, Ghost(all), Ghost(n4))?;
        let ghost n5 = n4 + T4::load_spec(all.skip(n4 as int))->Ok_0.1;
        let a5 = load_part::<T5, D>(loader, arg_id, Ghost(all), Ghost(n5))?;
        let ghost n6 = n5 + T5::load_spec(all.skip(n5 as int))->Ok_0.1;
        let a6 = load_part::<T6, D>(loader, arg_id, Ghost(all), Ghost(n6))?;
        let ghost n7 = n6 + T6::load_spec(all.skip(n6 as int))->Ok_0.1;
        let a7 = load_part::<T7, D>(loader, arg_id, Ghost(all), Ghost(n7))?;
        let ghost n8 = n7 + T7::load_spec(all.skip(n7 as int))->Ok_0.1;
        let a8 = load_part::<T8, D>(loader, arg_id, Ghost(all), Ghost(n8))?;
        let ghost n9 = n8 + T8::load_spec(all.skip(n8 as int))->Ok_0.1;
        let a9 = load_part::<T9, D>(loader, arg_id, Ghost(all), Ghost(n9))?;
        let ghost n10 = n9 + T9::load_spec(all.skip(n9 as int))->Ok_0.1;
        let a10 = load_part::<T10, D>(loader, arg_id, Ghost(all), Ghost(n10))?;
        let ghost n11 = n10 + T10::load_spec(all.skip(n10 as int))->Ok_0.1;
        let a11 = load_part::<T11, D>(loader, arg_id, Ghost(all), Ghost(n11))?;
        let ghost n12 = n11 + T11::load_spec(all.skip(n11 as int))->Ok_0.1;
        let a12 = load_part::<T12, D>(loader, arg_id, Ghost(all), Ghost(n12))?;
        let ghost n13 = n12 + T12::load_spec(all.skip(n12 as int))->Ok_0.1;
        let a13 = load_part::<T13, D>(loader, arg_id, Ghost(all), Ghost(n13))?;
        let ghost n14 = n13 + T13::load_spec(all.skip(n13 as int))->Ok_0.1;
        let a14 = load_part::<T14, D>(loader, arg_id, Ghost(all), Ghost(n14))?;
        Ok(MultiArg15((a0, a1, a2, a3, a4, a5, a6, a7, a8, a9, a10, a11, a12, a13, a14)))
    }
}

impl<
    T0: TakesArg<D>, T1: ArgType<D>, T2: ArgType<D>, T3: ArgType<D>, T4: ArgType<D>,
    T5: ArgType<D>, T6: ArgType<D>, T7: ArgType<D>, T8: ArgType<D>, T9: ArgType<D>,
    T10: ArgType<D>, T11: ArgType<D>, T12: ArgType<D>, T13: ArgType<D>, T14: ArgType<D>,
    D: DynArgLoader,
> TakesArg<D> for MultiArg15<T0, T1, T2, T3, T4, T5, T6, T7, T8, T9, T10, T11, T12, T13, T14> {
    proof fn lemma_takes_arg(args: Seq<Seq<u8>>) {
        T0::lemma_takes_arg(args);
    }
}

/// Loading fifteen decodable arguments uses exactly fifteen raw arguments
/// where that many are there, however many follow; with fewer the
/// loading ends with a wrong number of arguments. So the loading leaves
/// nothing behind just where exactly fifteen raw arguments were given.
pub proof fn lemma_multi_arg15_count<
    T0: Decode, T1: Decode, T2: Decode, T3: Decode, T4: Decode, T5: Decode, T6: Decode, T7: Decode,
    T8: Decode, T9: Decode, T10: Decode, T11: Decode, T12: Decode, T13: Decode, T14: Decode,
    D: DynArgLoader,
>(args: Seq<Seq<u8>>)
    requires
        args.len() > 0 ==> T0::top_decoded(args[0]) is Ok,
        args.len() > 1 ==> T1::top_decoded(args[1]) is Ok,
        args.len() > 2 ==> T2::top_decoded(args[2]) is Ok,
        args.len() > 3 ==> T3::top_decoded(args[3]) is Ok,
        args.len() > 4 ==> T4::top_decoded(args[4]) is Ok,
        args.len() > 5 ==> T5::top_decoded(args[5]) is Ok,
        args.len() > 6 ==> T6::top_decoded(args[6]) is Ok,
        args.len() > 7 ==> T7::top_decoded(args[7]) is Ok,
        args.len() > 8 ==> T8::top_decoded(args[8]) is Ok,
        args.len() > 9 ==> T9::top_decoded(args[9]) is Ok,
        args.len() > 10 ==> T10::top_decoded(args[10]) is Ok,
        args.len() > 11 ==> T11::top_decoded(args[11]) is Ok,
        args.len() > 12 ==> T12::top_decoded(args[12]) is Ok,
        args.len() > 13 ==> T13::top_decoded(args[13]) is Ok,
        args.len() > 14 ==> T14::top_decoded(args[14]) is Ok,
    ensures
        ({
            let loaded = <MultiArg15<
                T0, T1, T2, T3, T4, T5, T6, T7, T8, T9, T10, T11, T12, T13, T14,
            > as ArgType<D>>::load_spec(args);
            &&& args.len() >= 15 ==> (loaded matches Ok((_, k)) && k == 15)
            &&& args.len() < 15 ==> loaded is Err && loaded->Err_0 == SCError::ArgWrongNumber
            &&& (loaded matches Ok((_, k)) && k == args.len()) <==> args.len() == 15
        }),
{
    if args.len() > 1 {
        assert(args.skip(1)[0] == args[1]);
    }
    if args.len() > 2 {
        assert(args.skip(2)[0] == args[2]);
    }
    if args.len() > 3 {
        assert(args.skip(3)[0] == args[3]);
    }
    if args.len() > 4 {
        assert(args.skip(4)[0] == args[4]);
    }
    if args.len() > 5 {
        assert(args.skip(5)[0] == args[5]);
    }
    if args.len() > 6 {
        assert(args.skip(6)[0] == args[6]);
    }
    if args.len() > 7 {
        assert(args.skip(7)[0] == args[7]);
    }
    if args.len() > 8 {
        assert(args.skip(8)[0] == args[8]);
    }
    if args.len() > 9 {
        assert(args.skip(9)[0] == args[9]);
    }
    if args.len() > 10 {
        assert(args.skip(10)[0] == args[10]);
    }
    if args.len() > 11 {
        assert(args.skip(11)[0] == args[11]);
    }
    if args.len() > 12 {
        assert(args.skip(12)[0] == args[12]);
    }
    if args.len() > 13 {
        assert(args.skip(13)[0] == args[13]);
    }
    if args.len() > 14 {
        assert(args.skip(14)[0] == args[14]);
    }
}

/// Sixteen arguments, each of its own type, loaded in their order.
pub struct MultiArg16<
    T0, T1, T2, T3, T4, T5, T6, T7, T8, T9, T10, T11, T12, T13, T14, T15,
>(pub (T0, T1, T2, T3, T4, T5, T6, T7, T8, T9, T10, T11, T12, T13, T14, T15));

impl<
    T0: View, T1: View, T2: View, T3: View, T4: View, T5: View, T6: View, T7: View, T8: View,
    T9: View, T10: View, T11: View, T12: View, T13: View, T14: View, T15: View,
> View for MultiArg16<T0, T1, T2, T3, T4, T5, T6, T7, T8, T9, T10, T11, T12, T13, T14, T15> {
    type V = (
        T0::V, T1::V, T2::V, T3::V, T4::V, T5::V, T6::V, T7::V, T8::V, T9::V, T10::V, T11::V,
        T12::V, T13::V, T14::V, T15::V,
    );

    open spec fn view(&self) -> (
        T0::V, T1::V, T2::V, T3::V, T4::V, T5::V, T6::V, T7::V, T8::V, T9::V, T10::V, T11::V,
        T12::V, T13::V, T14::V, T15::V,
    ) {
        (
            self.0.0@, self.0.1@, self.0.2@, self.0.3@, self.0.4@, self.0.5@, self.0.6@, self.0.7@,
            self.0.8@, self.0.9@, self.0.10@, self.0.11@, self.0.12@, self.0.13@, self.0.14@,
            self.0.15@,
        )
    }
}

impl<
    T0, T1, T2, T3, T4, T5, T6, T7, T8, T9, T10, T11, T12, T13, T14, T15,
> MultiArg16<T0, T1, T2, T3, T4, T5, T6, T7, T8, T9, T10, T11, T12, T13, T14, T15> {
    /// The arguments as a tuple.
    pub fn into_tuple(self) -> (r: (
        T0, T1, T2, T3, T4, T5, T6, T7, T8, T9, T10, T11, T12, T13, T14, T15,
    ))
        ensures
            r == self.0,
    {
        self.0
    }
}

impl<
    T0: ArgType<D>, T1: ArgType<D>, T2: ArgType<D>, T3: ArgType<D>, T4: ArgType<D>, T5: ArgType<D>,
    T6: ArgType<D>, T7: ArgType<D>, T8: ArgType<D>, T9: ArgType<D>, T10: ArgType<D>,
    T11: ArgType<D>, T12: ArgType<D>, T13: ArgType<D>, T14: ArgType<D>, T15: ArgType<D>,
    D: DynArgLoader,
> ArgType<D> for MultiArg16<T0, T1, T2, T3, T4, T5, T6, T7, T8, T9, T10, T11, T12, T13, T14, T15> {
    /// Each argument is loaded from what the ones before it left; the
    /// first error ends the loading.
    open spec fn load_spec(args: Seq<Seq<u8>>) -> Result<((
        T0::V, T1::V, T2::V, T3::V, T4::V, T5::V, T6::V, T7::V, T8::V, T9::V, T10::V, T11::V,
        T12::V, T13::V, T14::V, T15::V,
    ), nat), SCError> {
        let r0 = T0::load_spec(args);
        let n1 = r0->Ok_0.1;
        let r1 = T1::load_spec(args.skip(n1 as int));
        let n2 = n1 + r1->Ok_0.1;
        let r2 = T2::load_spec(args.skip(n2 as int));
        let n3 = n2 + r2->Ok_0.1;
        let r3 = T3::load_spec(args.skip(n3 as int));
        let n4 = n3 + r3->Ok_0.1;
        let r4 = T4::load_spec(args.skip(n4 as int));
        let n5 = n4 + r4->Ok_0.1;
        let r5 = T5::load_spec(args.skip(n5 as int));
        let n6 = n5 + r5->Ok_0.1;
        let r6 = T6::load_spec(args.skip(n6 as int));
        let n7 = n6 + r6->Ok_0.1;
        let r7 = T7::load_spec(args.skip(n7 as int));
        let n8 = n7 + r7->Ok_0.1;
        let r8 = T8::load_spec(args.skip(n8 as int));
        let n9 = n8 + r8->Ok_0.1;
        let r9 = T9::load_spec(args.skip(n9 as int));
        let n10 = n9 + r9->Ok_0.1;
        let r10 = T10::load_spec(args.skip(n10 as int));
        let n11 = n10 + r10->Ok_0.1;
        let r11 = T11::load_spec(args.skip(n11 as int));
        let n12 = n11 + r11->Ok_0.1;
        let r12 = T12::load_spec(args.skip(n12 as int));
        let n13 = n12 + r12->Ok_0.1;
        let r13 = T13::load_spec(args.skip(n13 as int));
        let n14 = n13 + r13->Ok_0.1;
        let r14 = T14::load_spec(args.skip(n14 as int));
        let n15 = n14 + r14->Ok_0.1;
        let r15 = T15::load_spec(args.skip(n15 as int));
        let n16 = n15 + r15->Ok_0.1;
        if r0 is Err {
            Err(r0->Err_0)
        } else if r1 is Err {
            Err(r1->Err_0)
        } else if r2 is Err {
            Err(r2->Err_0)
        } else if r3 is Err {
            Err(r3->Err_0)
        } else if r4 is Err {
            Err(r4->Err_0)
        } else if r5 is Err {
            Err(r5->Err_0)
        } else if r6 is Err {
            Err(r6->Err_0)
        } else if r7 is Err {
            Err(r7->Err_0)
        } else if r8 is Err {
            Err(r8->Err_0)
        } else if r9 is Err {
            Err(r9->Err_0)
        } else if r10 is Err {
            Err(r10->Err_0)
        } else if r11 is Err {
            Err(r11->Err_0)
        } else if r12 is Err {
            Err(r12->Err_0)
        } else if r13 is Err {
            Err(r13->Err_0)
        } else if r14 is Err {
            Err(r14->Err_0)
        } else if r15 is Err {
            Err(r15->Err_0)
        } else {
            Ok(((
                r0->Ok_0.0, r1->Ok_0.0, r2->Ok_0.0, r3->Ok_0.0, r4->Ok_0.0, r5->Ok_0.0, r6->Ok_0.0,
                r7->Ok_0.0, r8->Ok_0.0, r9->Ok_0.0, r10->Ok_0.0, r11->Ok_0.0, r12->Ok_0.0,
                r13->Ok_0.0, r14->Ok_0.0, r15->Ok_0.0,
            ), n16))
        }
    }

    proof fn lemma_load_bound(args: Seq<Seq<u8>>) {
        T0::lemma_load_bound(args);
        let n1 = T0::load_spec(args)->Ok_0.1;
        T1::lemma_load_bound(args.skip(n1 as int));
        let n2 = n1 + T1::load_spec(args.skip(n1 as int))->Ok_0.1;
        T2::lemma_load_bound(args.skip(n2 as int));
        let n3 = n2 + T2::load_spec(args.skip(n2 as int))->Ok_0.1;
        T3::lemma_load_bound(args.skip(n3 as int));
        let n4 = n3 + T3::load_spec(args.skip(n3 as int))->Ok_0.1;
        T4::lemma_load_bound(args.skip(n4 as int));
        let n5 = n4 + T4::load_spec(args.skip(n4 as int))->Ok_0.1;
        T5::lemma_load_bound(args.skip(n5 as int));
        let n6 = n5 + T5::load_spec(args.skip(n5 as int))->Ok_0.1;
        T6::lemma_load_bound(args.skip(n6 as int));
        let n7 = n6 + T6::load_spec(args.skip(n6 as int))->Ok_0.1;
        T7::lemma_load_bound(args.skip(n7 as int));
        let n8 = n7 + T7::load_spec(args.skip(n7 as int))->Ok_0.1;
        T8::lemma_load_bound(args.skip(n8 as int));
        let n9 = n8 + T8::load_spec(args.skip(n8 as int))->Ok_0.1;
        T9::lemma_load_bound(args.skip(n9 as int));
        let n10 = n9 + T9::load_spec(args.skip(n9 as int))->Ok_0.1;
        T10::lemma_load_bound(args.skip(n10 as int));
        let n11 = n10 + T10::load_spec(args.skip(n10 as int))->Ok_0.1;
        T11::lemma_load_bound(args.skip(n11 as int));
        let n12 = n11 + T11::load_spec(args.skip(n11 as int))->Ok_0.1;
        T12::lemma_load_bound(args.skip(n12 as int));
        let n13 = n12 + T12::load_spec(args.skip(n12 as int))->Ok_0.1;
        T13::lemma_load_bound(args.skip(n13 as int));
        let n14 = n13 + T13::load_spec(args.skip(n13 as int))->Ok_0.1;
        T14::lemma_load_bound(args.skip(n14 as int));
        let n15 = n14 + T14::load_spec(args.skip(n14 as int))->Ok_0.1;
        T15::lemma_load_bound(args.skip(n15 as int));
    }

    fn load(loader: &mut D, arg_id: ArgId) -> (r: Result<Self, SCError>) {
        let ghost all = loader.remaining();
        proof {
            assert(all.skip(0) =~= all);
        }
        let a0 = load_part::<T0, D>(loader, arg_id, Ghost(all), Ghost(0))?;
        let ghost n1 = T0::load_spec(all)->Ok_0.1;
        let a1 = load_part::<T1, D>(loader, arg_id, Ghost(all), Ghost(n1))?;
        let ghost n2 = n1 + T1::load_spec(all.skip(n1 as int))->Ok_0.1;
        let a2 = load_part::<T2, D>(loader, arg_id, Ghost(all), Ghost(n2))?;
        let ghost n3 = n2 + T2::load_spec(all.skip(n2 as int))->Ok_0.1;
        let a3 = load_part::<T3, D>(loader, arg_id, Ghost(all), Ghost(n3))?;
        let ghost n4 = n3 + T3::load_spec(all.skip(n3 as int))->Ok_0.1;
        let a4 = load_part::<T4, D>(loader, arg_id, Ghost(all), Ghost(n4))?;
        let ghost n5 = n4 + T4::load_spec(all.skip(n4 as int))->Ok_0.1;
        let a5 = load_part::<T5, D>(loader, arg_id, Ghost(all), Ghost(n5))?;
        let ghost n6 = n5 + T5::load_spec(all.skip(n5 as int))->Ok_0.1;
        let a6 = load_part::<T6, D>(loader, arg_id, Ghost(all), Ghost(n6))?;
        let ghost n7 = n6 + T6::load_spec(all.skip(n6 as int))->Ok_0.1;
        let a7 = load_part::<T7, D>(loader, arg_id, Ghost(all), Ghost(n7))?;
        let ghost n8 = n7 + T7::load_spec(all.skip(n7 as int))->Ok_0.1;
        let a8 = load_part::<T8, D>(loader, arg_id, Ghost(all), Ghost(n8))?;
        let ghost n9 = n8 + T8::load_spec(all.skip(n8 as int))->Ok_0.1;
        let a9 = load_part::<T9, D>(loader, arg_id, Ghost(all), Ghost(n9))?;
        let ghost n10 = n9 + T9::load_spec(all.skip(n9 as int))->Ok_0.1;
        let a10 = load_part::<T10, D>(loader, arg_id, Ghost(all), Ghost(n10))?;
        let ghost n11 = n10 + T10::load_spec(all.skip(n10 as int))->Ok_0.1;
        let a11 = load_part::<T11, D>(loader, arg_id, Ghost(all), Ghost(n11))?;
        let ghost n12 = n11 + T11::load_spec(all.skip(n11 as int))->Ok_0.1;
        let a12 = load_part::<T12, D>(loader, arg_id, Ghost(all), Ghost(n12))?;
        let ghost n13 = n12 + T12::load_spec(all.skip(n12 as int))->Ok_0.1;
        let a13 = load_part::<T13, D>(loader, arg_id, Ghost(all), Ghost(n13))?;
        let ghost n14 = n13 + T13::load_spec(all.skip(n13 as int))->Ok_0.1;
        let a14 = load_part::<T14, D>(loader, arg_id, Ghost(all), Ghost(n14))?;
        let ghost n15 = n14 + T14::load_spec(all.skip(n14 as int))->Ok_0.1;
        let a15 = load_part::<T15, D>(loader, arg_id, Ghost(all), Ghost(n15))?;
        Ok(MultiArg16((a0, a1, a2, a3, a4, a5, a6, a7, a8, a9, a10, a11, a12, a13, a14, a15)))
    }
}

impl<
    T0: TakesArg<D>, T1: ArgType<D>, T2: ArgType<D>, T3: ArgType<D>, T4: ArgType<D>,
    T5: ArgType<D>, T6: ArgType<D>, T7: ArgType<D>, T8: ArgType<D>, T9: ArgType<D>,
    T10: ArgType<D>, T11: ArgType<D>, T12: ArgType<D>, T13: ArgType<D>, T14: ArgType<D>,
    T15: ArgType<D>, D: DynArgLoader,
> TakesArg<D> for MultiArg16<T0, T1, T2, T3, T4, T5, T6, T7, T8, T9, T10, T11, T12, T13, T14, T15> {
    proof fn lemma_takes_arg(args: Seq<Seq<u8>>) {
        T0::lemma_takes_arg(args);
    }
}

/// Loading sixteen decodable arguments uses exactly sixteen raw arguments
/// where that many are there, however many follow; with fewer the
/// loading ends with a wrong number of arguments. So the loading leaves
/// nothing behind just where exactly sixteen raw arguments were given.
pub proof fn lemma_multi_arg16_count<
    T0: Decode, T1: Decode, T2: Decode, T3: Decode, T4: Decode, T5: Decode, T6: Decode, T7: Decode,
    T8: Decode, T9: Decode, T10: Decode, T11: Decode, T12: Decode, T13: Decode, T14: Decode,
    T15: Decode, D: DynArgLoader,
>(args: Seq<Seq<u8>>)
    requires
        args.len() > 0 ==> T0::top_decoded(args[0]) is Ok,
        args.len() > 1 ==> T1::top_decoded(args[1]) is Ok,
        args.len() > 2 ==> T2::top_decoded(args[2]) is Ok,
        args.len() > 3 ==> T3::top_decoded(args[3]) is Ok,
        args.len() > 4 ==> T4::top_decoded(args[4]) is Ok,
        args.len() > 5 ==> T5::top_decoded(args[5]) is Ok,
        args.len() > 6 ==> T6::top_decoded(args[6]) is Ok,
        args.len() > 7 ==> T7::top_decoded(args[7]) is Ok,
        args.len() > 8 ==> T8::top_decoded(args[8]) is Ok,
        args.len() > 9 ==> T9::top_decoded(args[9]) is Ok,
        args.len() > 10 ==> T10::top_decoded(args[10]) is Ok,
        args.len() > 11 ==> T11::top_decoded(args[11]) is Ok,
        args.len() > 12 ==> T12::top_decoded(args[12]) is Ok,
        args.len() > 13 ==> T13::top_decoded(args[13]) is Ok,
        args.len() > 14 ==> T14::top_decoded(args[14]) is Ok,
        args.len() > 15 ==> T15::top_decoded(args[15]) is Ok,
    ensures
        ({
            let loaded = <MultiArg16<
                T0, T1, T2, T3, T4, T5, T6, T7, T8, T9, T10, T11, T12, T13, T14, T15,
            > as ArgType<D>>::load_spec(args);
            &&& args.len() >= 16 ==> (loaded matches Ok((_, k)) && k == 16)
            &&& args.len() < 16 ==> loaded is Err && loaded->Err_0 == SCError::ArgWrongNumber
            &&& (loaded matches Ok((_, k)) && k == args.len()) <==> args.len() == 16
        }),
{
    if args.len() > 1 {
        assert(args.skip(1)[0] == args[1]);
    }
    if args.len() > 2 {
        assert(args.skip(2)[0] == args[2]);
    }
    if args.len() > 3 {
        assert(args.skip(3)[0] == args[3]);
    }
    if args.len() > 4 {
        assert(args.skip(4)[0] == args[4]);
    }
    if args.len() > 5 {
        assert(args.skip(5)[0] == args[5]);
    }
    if args.len() > 6 {
        assert(args.skip(6)[0] == args[6]);
    }
    if args.len() > 7 {
        assert(args.skip(7)[0] == args[7]);
    }
    if args.len() > 8 {
        assert(args.skip(8)[0] == args[8]);
    }
    if args.len() > 9 {
        assert(args.skip(9)[0] == args[9]);
    }
    if args.len() > 10 {
        assert(args.skip(10)[0] == args[10]);
    }
    if args.len() > 11 {
        assert(args.skip(11)[0] == args[11]);
    }
    if args.len() > 12 {
        assert(args.skip(12)[0] == args[12]);
    }
    if args.len() > 13 {
        assert(args.skip(13)[0] == args[13]);
    }
    if args.len() > 14 {
        assert(args.skip(14)[0] == args[14]);
    }
    if args.len() > 15 {
        assert(args.skip(15)[0] == args[15]);
    }
}

} // verus!
