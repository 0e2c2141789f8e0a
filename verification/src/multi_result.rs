//! Groups of a fixed number of results, from one to sixteen, each of its
//! own type, as arguments of an asynchronous call.

use vstd::prelude::*;
use crate::arg_serialize::{AsynCallArg, CallDataSerializer};
use crate::error::SCError;

verus! {

/// Writes the next part of a group behind what `serializer` holds: the
/// call data `start` that was there before the group, and `written` from
/// the parts before this one.
fn push_part<T: AsynCallArg>(
    part: &T,
    serializer: &mut CallDataSerializer,
    Ghost(start): Ghost<Seq<Seq<u8>>>,
    Ghost(written): Ghost<Seq<Seq<u8>>>,
) -> (r: Result<(), SCError>)
    requires
        old(serializer)@ == start + written,
    ensures
        final(serializer)@ == start + (written + part.async_written()),
        match r {
            Ok(()) => part.async_args() == Ok::<Seq<Seq<u8>>, SCError>(part.async_written()),
            Err(e) => part.async_args() == Err::<Seq<Seq<u8>>, SCError>(e),
        },
{
    let r = part.push_async_arg(serializer);
    proof {
        let w = part.async_written();
        assert((start + written) + w =~= start + (written + w));
    }
    r
}

/// One result, each of its own type, written in its order.
pub struct MultiResult1<T0>(pub (T0,));

impl<T0: AsynCallArg> AsynCallArg for MultiResult1<T0> {
    /// The one part contributes what it contributes.
    open spec fn async_args(&self) -> Result<Seq<Seq<u8>>, SCError> {
        self.0.0.async_args()
    }

    open spec fn async_written(&self) -> Seq<Seq<u8>> {
        self.0.0.async_written()
    }

    fn push_async_arg(&self, serializer: &mut CallDataSerializer) -> (r: Result<(), SCError>) {
        self.0.0.push_async_arg(serializer)
    }
}

/// Two results, each of its own type, written in their order.
pub struct MultiResult2<T0, T1>(pub (T0, T1));

impl<T0: AsynCallArg, T1: AsynCallArg> AsynCallArg for MultiResult2<T0, T1> {
    /// The parts contribute one after the other; the first error ends
    /// it.
    open spec fn async_args(&self) -> Result<Seq<Seq<u8>>, SCError> {
        let w0 = self.0.0.async_args();
        let w1 = self.0.1.async_args();
        if w0 is Err {
            Err(w0->Err_0)
        } else if w1 is Err {
            Err(w1->Err_0)
        } else {
            Ok(w0->Ok_0 + w1->Ok_0)
        }
    }

    /// The parts are written one after the other, up to the first that
    /// fails.
    open spec fn async_written(&self) -> Seq<Seq<u8>> {
        let s1 = self.0.0.async_written();
        let s2 = s1 + self.0.1.async_written();
        if self.0.0.async_args() is Err {
            s1
        } else {
            s2
        }
    }

    fn push_async_arg(&self, serializer: &mut CallDataSerializer) -> (r: Result<(), SCError>) {
        let ghost start = serializer@;
        self.0.0.push_async_arg(serializer)?;
        let ghost written = self.0.0.async_written();
        push_part(&self.0.1, serializer, Ghost(start), Ghost(written))?;
        Ok(())
    }
}

/// Three results, each of its own type, written in their order.
pub struct MultiResult3<T0, T1, T2>(pub (T0, T1, T2));

impl<T0: AsynCallArg, T1: AsynCallArg, T2: AsynCallArg> AsynCallArg for MultiResult3<T0, T1, T2> {
    /// The parts contribute one after the other; the first error ends
    /// it.
    open spec fn async_args(&self) -> Result<Seq<Seq<u8>>, SCError> {
        let w0 = self.0.0.async_args();
        let w1 = self.0.1.async_args();
        let w2 = self.0.2.async_args();
        if w0 is Err {
            Err(w0->Err_0)
        } else if w1 is Err {
            Err(w1->Err_0)
        } else if w2 is Err {
            Err(w2->Err_0)
        } else {
            Ok(w0->Ok_0 + w1->Ok_0 + w2->Ok_0)
        }
    }

    /// The parts are written one after the other, up to the first that
    /// fails.
    open spec fn async_written(&self) -> Seq<Seq<u8>> {
        let s1 = self.0.0.async_written();
        let s2 = s1 + self.0.1.async_written();
        let s3 = s2 + self.0.2.async_written();
        if self.0.0.async_args() is Err {
            s1
        } else if self.0.1.async_args() is Err {
            s2
        } else {
            s3
        }
    }

    fn push_async_arg(&self, serializer: &mut CallDataSerializer) -> (r: Result<(), SCError>) {
        let ghost start = serializer@;
        self.0.0.push_async_arg(serializer)?;
        let ghost written = self.0.0.async_written();
        push_part(&self.0.1, serializer, Ghost(start), Ghost(written))?;
        let ghost written = written + self.0.1.async_written();
        push_part(&self.0.2, serializer, Ghost(start), Ghost(written))?;
        Ok(())
    }
}

/// Four results, each of its own type, written in their order.
pub struct MultiResult4<T0, T1, T2, T3>(pub (T0, T1, T2, T3));

impl<
    T0: AsynCallArg, T1: AsynCallArg, T2: AsynCallArg, T3: AsynCallArg,
> AsynCallArg for MultiResult4<T0, T1, T2, T3> {
    /// The parts contribute one after the other; the first error ends
    /// it.
    open spec fn async_args(&self) -> Result<Seq<Seq<u8>>, SCError> {
        let w0 = self.0.0.async_args();
        let w1 = self.0.1.async_args();
        let w2 = self.0.2.async_args();
        let w3 = self.0.3.async_args();
        if w0 is Err {
            Err(w0->Err_0)
        } else if w1 is Err {
            Err(w1->Err_0)
        } else if w2 is Err {
            Err(w2->Err_0)
        } else if w3 is Err {
            Err(w3->Err_0)
        } else {
            Ok(w0->Ok_0 + w1->Ok_0 + w2->Ok_0 + w3->Ok_0)
        }
    }

    /// The parts are written one after the other, up to the first that
    /// fails.
    open spec fn async_written(&self) -> Seq<Seq<u8>> {
        let s1 = self.0.0.async_written();
        let s2 = s1 + self.0.1.async_written();
        let s3 = s2 + self.0.2.async_written();
        let s4 = s3 + self.0.3.async_written();
        if self.0.0.async_args() is Err {
            s1
        } else if self.0.1.async_args() is Err {
            s2
        } else if self.0.2.async_args() is Err {
            s3
        } else {
            s4
        }
    }

    fn push_async_arg(&self, serializer: &mut CallDataSerializer) -> (r: Result<(), SCError>) {
        let ghost start = serializer@;
        self.0.0.push_async_arg(serializer)?;
        let ghost written = self.0.0.async_written();
        push_part(&self.0.1, serializer, Ghost(start), Ghost(written))?;
        let ghost written = written + self.0.1.async_written();
        push_part(&self.0.2, serializer, Ghost(start), Ghost(written))?;
        let ghost written = written + self.0.2.async_written();
        push_part(&self.0.3, serializer, Ghost(start), Ghost(written))?;
        Ok(())
    }
}

/// Five results, each of its own type, written in their order.
pub struct MultiResult5<T0, T1, T2, T3, T4>(pub (T0, T1, T2, T3, T4));

impl<
    T0: AsynCallArg, T1: AsynCallArg, T2: AsynCallArg, T3: AsynCallArg, T4: AsynCallArg,
> AsynCallArg for MultiResult5<T0, T1, T2, T3, T4> {
    /// The parts contribute one after the other; the first error ends
    /// it.
    open spec fn async_args(&self) -> Result<Seq<Seq<u8>>, SCError> {
        let w0 = self.0.0.async_args();
        let w1 = self.0.1.async_args();
        let w2 = self.0.2.async_args();
        let w3 = self.0.3.async_args();
        let w4 = self.0.4.async_args();
        if w0 is Err {
            Err(w0->Err_0)
        } else if w1 is Err {
            Err(w1->Err_0)
        } else if w2 is Err {
            Err(w2->Err_0)
        } else if w3 is Err {
            Err(w3->Err_0)
        } else if w4 is Err {
            Err(w4->Err_0)
        } else {
            Ok(w0->Ok_0 + w1->Ok_0 + w2->Ok_0 + w3->Ok_0 + w4->Ok_0)
        }
    }

    /// The parts are written one after the other, up to the first that
    /// fails.
    open spec fn async_written(&self) -> Seq<Seq<u8>> {
        let s1 = self.0.0.async_written();
        let s2 = s1 + self.0.1.async_written();
        let s3 = s2 + self.0.2.async_written();
        let s4 = s3 + self.0.3.async_written();
        let s5 = s4 + self.0.4.async_written();
        if self.0.0.async_args() is Err {
            s1
        } else if self.0.1.async_args() is Err {
            s2
        } else if self.0.2.async_args() is Err {
            s3
        } else if self.0.3.async_args() is Err {
            s4
        } else {
            s5
        }
    }

    fn push_async_arg(&self, serializer: &mut CallDataSerializer) -> (r: Result<(), SCError>) {
        let ghost start = serializer@;
        self.0.0.push_async_arg(serializer)?;
        let ghost written = self.0.0.async_written();
        push_part(&self.0.1, serializer, Ghost(start), Ghost(written))?;
        let ghost written = written + self.0.1.async_written();
        push_part(&self.0.2, serializer, Ghost(start), Ghost(written))?;
        let ghost written = written + self.0.2.async_written();
        push_part(&self.0.3, serializer, Ghost(start), Ghost(written))?;
        let ghost written = written + self.0.3.async_written();
        push_part(&self.0.4, serializer, Ghost(start), Ghost(written))?;
        Ok(())
    }
}

/// Six results, each of its own type, written in their order.
pub struct MultiResult6<T0, T1, T2, T3, T4, T5>(pub (T0, T1, T2, T3, T4, T5));

impl<
    T0: AsynCallArg, T1: AsynCallArg, T2: AsynCallArg, T3: AsynCallArg, T4: AsynCallArg,
    T5: AsynCallArg,
> AsynCallArg for MultiResult6<T0, T1, T2, T3, T4, T5> {
    /// The parts contribute one after the other; the first error ends
    /// it.
    open spec fn async_args(&self) -> Result<Seq<Seq<u8>>, SCError> {
        let w0 = self.0.0.async_args();
        let w1 = self.0.1.async_args();
        let w2 = self.0.2.async_args();
        let w3 = self.0.3.async_args();
        let w4 = self.0.4.async_args();
        let w5 = self.0.5.async_args();
        if w0 is Err {
            Err(w0->Err_0)
        } else if w1 is Err {
            Err(w1->Err_0)
        } else if w2 is Err {
            Err(w2->Err_0)
        } else if w3 is Err {
            Err(w3->Err_0)
        } else if w4 is Err {
            Err(w4->Err_0)
        } else if w5 is Err {
            Err(w5->Err_0)
        } else {
            Ok(w0->Ok_0 + w1->Ok_0 + w2->Ok_0 + w3->Ok_0 + w4->Ok_0 + w5->Ok_0)
        }
    }

    /// The parts are written one after the other, up to the first that
    /// fails.
    open spec fn async_written(&self) -> Seq<Seq<u8>> {
        let s1 = self.0.0.async_written();
        let s2 = s1 + self.0.1.async_written();
        let s3 = s2 + self.0.2.async_written();
        let s4 = s3 + self.0.3.async_written();
        let s5 = s4 + self.0.4.async_written();
        let s6 = s5 + self.0.5.async_written();
        if self.0.0.async_args() is Err {
            s1
        } else if self.0.1.async_args() is Err {
            s2
        } else if self.0.2.async_args() is Err {
            s3
        } else if self.0.3.async_args() is Err {
            s4
        } else if self.0.4.async_args() is Err {
            s5
        } else {
            s6
        }
    }

    fn push_async_arg(&self, serializer: &mut CallDataSerializer) -> (r: Result<(), SCError>) {
        let ghost start = serializer@;
        self.0.0.push_async_arg(serializer)?;
        let ghost written = self.0.0.async_written();
        push_part(&self.0.1, serializer, Ghost(start), Ghost(written))?;
        let ghost written = written + self.0.1.async_written();
        push_part(&self.0.2, serializer, Ghost(start), Ghost(written))?;
        let ghost written = written + self.0.2.async_written();
        push_part(&self.0.3, serializer, Ghost(start), Ghost(written))?;
        let ghost written = written + self.0.3.async_written();
        push_part(&self.0.4, serializer, Ghost(start), Ghost(written))?;
        let ghost written = written + self.0.4.async_written();
        push_part(&self.0.5, serializer, Ghost(start), Ghost(written))?;
        Ok(())
    }
}

/// Seven results, each of its own type, written in their order.
pub struct MultiResult7<T0, T1, T2, T3, T4, T5, T6>(pub (T0, T1, T2, T3, T4, T5, T6));

impl<
    T0: AsynCallArg, T1: AsynCallArg, T2: AsynCallArg, T3: AsynCallArg, T4: AsynCallArg,
    T5: AsynCallArg, T6: AsynCallArg,
> AsynCallArg for MultiResult7<T0, T1, T2, T3, T4, T5, T6> {
    /// The parts contribute one after the other; the first error ends
    /// it.
    open spec fn async_args(&self) -> Result<Seq<Seq<u8>>, SCError> {
        let w0 = self.0.0.async_args();
        let w1 = self.0.1.async_args();
        let w2 = self.0.2.async_args();
        let w3 = self.0.3.async_args();
        let w4 = self.0.4.async_args();
        let w5 = self.0.5.async_args();
        let w6 = self.0.6.async_args();
        if w0 is Err {
            Err(w0->Err_0)
        } else if w1 is Err {
            Err(w1->Err_0)
        } else if w2 is Err {
            Err(w2->Err_0)
        } else if w3 is Err {
            Err(w3->Err_0)
        } else if w4 is Err {
            Err(w4->Err_0)
        } else if w5 is Err {
            Err(w5->Err_0)
        } else if w6 is Err {
            Err(w6->Err_0)
        } else {
            Ok(w0->Ok_0 + w1->Ok_0 + w2->Ok_0 + w3->Ok_0 + w4->Ok_0 + w5->Ok_0 + w6->Ok_0)
        }
    }

    /// The parts are written one after the other, up to the first that
    /// fails.
    open spec fn async_written(&self) -> Seq<Seq<u8>> {
        let s1 = self.0.0.async_written();
        let s2 = s1 + self.0.1.async_written();
        let s3 = s2 + self.0.2.async_written();
        let s4 = s3 + self.0.3.async_written();
        let s5 = s4 + self.0.4.async_written();
        let s6 = s5 + self.0.5.async_written();
        let s7 = s6 + self.0.6.async_written();
        if self.0.0.async_args() is Err {
            s1
        } else if self.0.1.async_args() is Err {
            s2
        } else if self.0.2.async_args() is Err {
            s3
        } else if self.0.3.async_args() is Err {
            s4
        } else if self.0.4.async_args() is Err {
            s5
        } else if self.0.5.async_args() is Err {
            s6
        } else {
            s7
        }
    }

    fn push_async_arg(&self, serializer: &mut CallDataSerializer) -> (r: Result<(), SCError>) {
        let ghost start = serializer@;
        self.0.0.push_async_arg(serializer)?;
        let ghost written = self.0.0.async_written();
        push_part(&self.0.1, serializer, Ghost(start), Ghost(written))?;
        let ghost written = written + self.0.1.async_written();
        push_part(&self.0.2, serializer, Ghost(start), Ghost(written))?;
        let ghost written = written + self.0.2.async_written();
        push_part(&self.0.3, serializer, Ghost(start), Ghost(written))?;
        let ghost written = written + self.0.3.async_written();
        push_part(&self.0.4, serializer, Ghost(start), Ghost(written))?;
        let ghost written = written + self.0.4.async_written();
        push_part(&self.0.5, serializer, Ghost(start), Ghost(written))?;
        let ghost written = written + self.0.5.async_written();
        push_part(&self.0.6, serializer, Ghost(start), Ghost(written))?;
        Ok(())
    }
}

/// Eight results, each of its own type, written in their order.
pub struct MultiResult8<T0, T1, T2, T3, T4, T5, T6, T7>(pub (T0, T1, T2, T3, T4, T5, T6, T7));

impl<
    T0: AsynCallArg, T1: AsynCallArg, T2: AsynCallArg, T3: AsynCallArg, T4: AsynCallArg,
    T5: AsynCallArg, T6: AsynCallArg, T7: AsynCallArg,
> AsynCallArg for MultiResult8<T0, T1, T2, T3, T4, T5, T6, T7> {
    /// The parts contribute one after the other; the first error ends
    /// it.
    open spec fn async_args(&self) -> Result<Seq<Seq<u8>>, SCError> {
        let w0 = self.0.0.async_args();
        let w1 = self.0.1.async_args();
        let w2 = self.0.2.async_args();
        let w3 = self.0.3.async_args();
        let w4 = self.0.4.async_args();
        let w5 = self.0.5.async_args();
        let w6 = self.0.6.async_args();
        let w7 = self.0.7.async_args();
        if w0 is Err {
            Err(w0->Err_0)
        } else if w1 is Err {
            Err(w1->Err_0)
        } else if w2 is Err {
            Err(w2->Err_0)
        } else if w3 is Err {
            Err(w3->Err_0)
        } else if w4 is Err {
            Err(w4->Err_0)
        } else if w5 is Err {
            Err(w5->Err_0)
        } else if w6 is Err {
            Err(w6->Err_0)
        } else if w7 is Err {
            Err(w7->Err_0)
        } else {
            Ok(
                w0->Ok_0 + w1->Ok_0 + w2->Ok_0 + w3->Ok_0 + w4->Ok_0 + w5->Ok_0 + w6->Ok_0 +
                    w7->Ok_0,
            )
        }
    }

    /// The parts are written one after the other, up to the first that
    /// fails.
    open spec fn async_written(&self) -> Seq<Seq<u8>> {
        let s1 = self.0.0.async_written();
        let s2 = s1 + self.0.1.async_written();
        let s3 = s2 + self.0.2.async_written();
        let s4 = s3 + self.0.3.async_written();
        let s5 = s4 + self.0.4.async_written();
        let s6 = s5 + self.0.5.async_written();
        let s7 = s6 + self.0.6.async_written();
        let s8 = s7 + self.0.7.async_written();
        if self.0.0.async_args() is Err {
            s1
        } else if self.0.1.async_args() is Err {
            s2
        } else if self.0.2.async_args() is Err {
            s3
        } else if self.0.3.async_args() is Err {
            s4
        } else if self.0.4.async_args() is Err {
            s5
        } else if self.0.5.async_args() is Err {
            s6
        } else if self.0.6.async_args() is Err {
            s7
        } else {
            s8
        }
    }

    fn push_async_arg(&self, serializer: &mut CallDataSerializer) -> (r: Result<(), SCError>) {
        let ghost start = serializer@;
        self.0.0.push_async_arg(serializer)?;
        let ghost written = self.0.0.async_written();
        push_part(&self.0.1, serializer, Ghost(start), Ghost(written))?;
        let ghost written = written + self.0.1.async_written();
        push_part(&self.0.2, serializer, Ghost(start), Ghost(written))?;
        let ghost written = written + self.0.2.async_written();
        push_part(&self.0.3, serializer, Ghost(start), Ghost(written))?;
        let ghost written = written + self.0.3.async_written();
        push_part(&self.0.4, serializer, Ghost(start), Ghost(written))?;
        let ghost written = written + self.0.4.async_written();
        push_part(&self.0.5, serializer, Ghost(start), Ghost(written))?;
        let ghost written = written + self.0.5.async_written();
        push_part(&self.0.6, serializer, Ghost(start), Ghost(written))?;
        let ghost written = written + self.0.6.async_written();
        push_part(&self.0.7, serializer, Ghost(start), Ghost(written))?;
        Ok(())
    }
}

/// Nine results, each of its own type, written in their order.
pub struct MultiResult9<
    T0, T1, T2, T3, T4, T5, T6, T7, T8,
>(pub (T0, T1, T2, T3, T4, T5, T6, T7, T8));

impl<
    T0: AsynCallArg, T1: AsynCallArg, T2: AsynCallArg, T3: AsynCallArg, T4: AsynCallArg,
    T5: AsynCallArg, T6: AsynCallArg, T7: AsynCallArg, T8: AsynCallArg,
> AsynCallArg for MultiResult9<T0, T1, T2, T3, T4, T5, T6, T7, T8> {
    /// The parts contribute one after the other; the first error ends
    /// it.
    open spec fn async_args(&self) -> Result<Seq<Seq<u8>>, SCError> {
        let w0 = self.0.0.async_args();
        let w1 = self.0.1.async_args();
        let w2 = self.0.2.async_args();
        let w3 = self.0.3.async_args();
        let w4 = self.0.4.async_args();
        let w5 = self.0.5.async_args();
        let w6 = self.0.6.async_args();
        let w7 = self.0.7.async_args();
        let w8 = self.0.8.async_args();
        if w0 is Err {
            Err(w0->Err_0)
        } else if w1 is Err {
            Err(w1->Err_0)
        } else if w2 is Err {
            Err(w2->Err_0)
        } else if w3 is Err {
            Err(w3->Err_0)
        } else if w4 is Err {
            Err(w4->Err_0)
        } else if w5 is Err {
            Err(w5->Err_0)
        } else if w6 is Err {
            Err(w6->Err_0)
        } else if w7 is Err {
            Err(w7->Err_0)
        } else if w8 is Err {
            Err(w8->Err_0)
        } else {
            Ok(
                w0->Ok_0 + w1->Ok_0 + w2->Ok_0 + w3->Ok_0 + w4->Ok_0 + w5->Ok_0 + w6->Ok_0 +
                    w7->Ok_0 + w8->Ok_0,
            )
        }
    }

    /// The parts are written one after the other, up to the first that
    /// fails.
    open spec fn async_written(&self) -> Seq<Seq<u8>> {
        let s1 = self.0.0.async_written();
        let s2 = s1 + self.0.1.async_written();
        let s3 = s2 + self.0.2.async_written();
        let s4 = s3 + self.0.3.async_written();
        let s5 = s4 + self.0.4.async_written();
        let s6 = s5 + self.0.5.async_written();
        let s7 = s6 + self.0.6.async_written();
        let s8 = s7 + self.0.7.async_written();
        let s9 = s8 + self.0.8.async_written();
        if self.0.0.async_args() is Err {
            s1
        } else if self.0.1.async_args() is Err {
            s2
        } else if self.0.2.async_args() is Err {
            s3
        } else if self.0.3.async_args() is Err {
            s4
        } else if self.0.4.async_args() is Err {
            s5
        } else if self.0.5.async_args() is Err {
            s6
        } else if self.0.6.async_args() is Err {
            s7
        } else if self.0.7.async_args() is Err {
            s8
        } else {
            s9
        }
    }

    fn push_async_arg(&self, serializer: &mut CallDataSerializer) -> (r: Result<(), SCError>) {
        let ghost start = serializer@;
        self.0.0.push_async_arg(serializer)?;
        let ghost written = self.0.0.async_written();
        push_part(&self.0.1, serializer, Ghost(start), Ghost(written))?;
        let ghost written = written + self.0.1.async_written();
        push_part(&self.0.2, serializer, Ghost(start), Ghost(written))?;
        let ghost written = written + self.0.2.async_written();
        push_part(&self.0.3, serializer, Ghost(start), Ghost(written))?;
        let ghost written = written + self.0.3.async_written();
        push_part(&self.0.4, serializer, Ghost(start), Ghost(written))?;
        let ghost written = written + self.0.4.async_written();
        push_part(&self.0.5, serializer, Ghost(start), Ghost(written))?;
        let ghost written = written + self.0.5.async_written();
        push_part(&self.0.6, serializer, Ghost(start), Ghost(written))?;
        let ghost written = written + self.0.6.async_written();
        push_part(&self.0.7, serializer, Ghost(start), Ghost(written))?;
        let ghost written = written + self.0.7.async_written();
        push_part(&self.0.8, serializer, Ghost(start), Ghost(written))?;
        Ok(())
    }
}

/// Ten results, each of its own type, written in their order.
pub struct MultiResult10<
    T0, T1, T2, T3, T4, T5, T6, T7, T8, T9,
>(pub (T0, T1, T2, T3, T4, T5, T6, T7, T8, T9));

impl<
    T0: AsynCallArg, T1: AsynCallArg, T2: AsynCallArg, T3: AsynCallArg, T4: AsynCallArg,
    T5: AsynCallArg, T6: AsynCallArg, T7: AsynCallArg, T8: AsynCallArg, T9: AsynCallArg,
> AsynCallArg for MultiResult10<T0, T1, T2, T3, T4, T5, T6, T7, T8, T9> {
    /// The parts contribute one after the other; the first error ends
    /// it.
    open spec fn async_args(&self) -> Result<Seq<Seq<u8>>, SCError> {
        let w0 = self.0.0.async_args();
        let w1 = self.0.1.async_args();
        let w2 = self.0.2.async_args();
        let w3 = self.0.3.async_args();
        let w4 = self.0.4.async_args();
        let w5 = self.0.5.async_args();
        let w6 = self.0.6.async_args();
        let w7 = self.0.7.async_args();
        let w8 = self.0.8.async_args();
        let w9 = self.0.9.async_args();
        if w0 is Err {
            Err(w0->Err_0)
        } else if w1 is Err {
            Err(w1->Err_0)
        } else if w2 is Err {
            Err(w2->Err_0)
        } else if w3 is Err {
            Err(w3->Err_0)
        } else if w4 is Err {
            Err(w4->Err_0)
        } else if w5 is Err {
            Err(w5->Err_0)
        } else if w6 is Err {
            Err(w6->Err_0)
        } else if w7 is Err {
            Err(w7->Err_0)
        } else if w8 is Err {
            Err(w8->Err_0)
        } else if w9 is Err {
            Err(w9->Err_0)
        } else {
            Ok(
                w0->Ok_0 + w1->Ok_0 + w2->Ok_0 + w3->Ok_0 + w4->Ok_0 + w5->Ok_0 + w6->Ok_0 +
                    w7->Ok_0 + w8->Ok_0 + w9->Ok_0,
            )
        }
    }

    /// The parts are written one after the other, up to the first that
    /// fails.
    open spec fn async_written(&self) -> Seq<Seq<u8>> {
        let s1 = self.0.0.async_written();
        let s2 = s1 + self.0.1.async_written();
        let s3 = s2 + self.0.2.async_written();
        let s4 = s3 + self.0.3.async_written();
        let s5 = s4 + self.0.4.async_written();
        let s6 = s5 + self.0.5.async_written();
        let s7 = s6 + self.0.6.async_written();
        let s8 = s7 + self.0.7.async_written();
        let s9 = s8 + self.0.8.async_written();
        let s10 = s9 + self.0.9.async_written();
        if self.0.0.async_args() is Err {
            s1
        } else if self.0.1.async_args() is Err {
            s2
        } else if self.0.2.async_args() is Err {
            s3
        } else if self.0.3.async_args() is Err {
            s4
        } else if self.0.4.async_args() is Err {
            s5
        } else if self.0.5.async_args() is Err {
            s6
        } else if self.0.6.async_args() is Err {
            s7
        } else if self.0.7.async_args() is Err {
            s8
        } else if self.0.8.async_args() is Err {
            s9
        } else {
            s10
        }
    }

    fn push_async_arg(&self, serializer: &mut CallDataSerializer) -> (r: Result<(), SCError>) {
        let ghost start = serializer@;
        self.0.0.push_async_arg(serializer)?;
        let ghost written = self.0.0.async_written();
        push_part(&self.0.1, serializer, Ghost(start), Ghost(written))?;
        let ghost written = written + self.0.1.async_written();
        push_part(&self.0.2, serializer, Ghost(start), Ghost(written))?;
        let ghost written = written + self.0.2.async_written();
        push_part(&self.0.3, serializer, Ghost(start), Ghost(written))?;
        let ghost written = written + self.0.3.async_written();
        push_part(&self.0.4, serializer, Ghost(start), Ghost(written))?;
        let ghost written = written + self.0.4.async_written();
        push_part(&self.0.5, serializer, Ghost(start), Ghost(written))?;
        let ghost written = written + self.0.5.async_written();
        push_part(&self.0.6, serializer, Ghost(start), Ghost(written))?;
        let ghost written = written + self.0.6.async_written();
        push_part(&self.0.7, serializer, Ghost(start), Ghost(written))?;
        let ghost written = written + self.0.7.async_written();
        push_part(&self.0.8, serializer, Ghost(start), Ghost(written))?;
        let ghost written = written + self.0.8.async_written();
        push_part(&self.0.9, serializer, Ghost(start), Ghost(written))?;
        Ok(())
    }
}

/// Eleven results, each of its own type, written in their order.
pub struct MultiResult11<
    T0, T1, T2, T3, T4, T5, T6, T7, T8, T9, T10,
>(pub (T0, T1, T2, T3, T4, T5, T6, T7, T8, T9, T10));

impl<
    T0: AsynCallArg, T1: AsynCallArg, T2: AsynCallArg, T3: AsynCallArg, T4: AsynCallArg,
    T5: AsynCallArg, T6: AsynCallArg, T7: AsynCallArg, T8: AsynCallArg, T9: AsynCallArg,
    T10: AsynCallArg,
> AsynCallArg for MultiResult11<T0, T1, T2, T3, T4, T5, T6, T7, T8, T9, T10> {
    /// The parts contribute one after the other; the first error ends
    /// it.
    open spec fn async_args(&self) -> Result<Seq<Seq<u8>>, SCError> {
        let w0 = self.0.0.async_args();
        let w1 = self.0.1.async_args();
        let w2 = self.0.2.async_args();
        let w3 = self.0.3.async_args();
        let w4 = self.0.4.async_args();
        let w5 = self.0.5.async_args();
        let w6 = self.0.6.async_args();
        let w7 = self.0.7.async_args();
        let w8 = self.0.8.async_args();
        let w9 = self.0.9.async_args();
        let w10 = self.0.10.async_args();
        if w0 is Err {
            Err(w0->Err_0)
        } else if w1 is Err {
            Err(w1->Err_0)
        } else if w2 is Err {
            Err(w2->Err_0)
        } else if w3 is Err {
            Err(w3->Err_0)
        } else if w4 is Err {
            Err(w4->Err_0)
        } else if w5 is Err {
            Err(w5->Err_0)
        } else if w6 is Err {
            Err(w6->Err_0)
        } else if w7 is Err {
            Err(w7->Err_0)
        } else if w8 is Err {
            Err(w8->Err_0)
        } else if w9 is Err {
            Err(w9->Err_0)
        } else if w10 is Err {
            Err(w10->Err_0)
        } else {
            Ok(
                w0->Ok_0 + w1->Ok_0 + w2->Ok_0 + w3->Ok_0 + w4->Ok_0 + w5->Ok_0 + w6->Ok_0 +
                    w7->Ok_0 + w8->Ok_0 + w9->Ok_0 + w10->Ok_0,
            )
        }
    }

    /// The parts are written one after the other, up to the first that
    /// fails.
    open spec fn async_written(&self) -> Seq<Seq<u8>> {
        let s1 = self.0.0.async_written();
        let s2 = s1 + self.0.1.async_written();
        let s3 = s2 + self.0.2.async_written();
        let s4 = s3 + self.0.3.async_written();
        let s5 = s4 + self.0.4.async_written();
        let s6 = s5 + self.0.5.async_written();
        let s7 = s6 + self.0.6.async_written();
        let s8 = s7 + self.0.7.async_written();
        let s9 = s8 + self.0.8.async_written();
        let s10 = s9 + self.0.9.async_written();
        let s11 = s10 + self.0.10.async_written();
        if self.0.0.async_args() is Err {
            s1
        } else if self.0.1.async_args() is Err {
            s2
        } else if self.0.2.async_args() is Err {
            s3
        } else if self.0.3.async_args() is Err {
            s4
        } else if self.0.4.async_args() is Err {
            s5
        } else if self.0.5.async_args() is Err {
            s6
        } else if self.0.6.async_args() is Err {
            s7
        } else if self.0.7.async_args() is Err {
            s8
        } else if self.0.8.async_args() is Err {
            s9
        } else if self.0.9.async_args() is Err {
            s10
        } else {
            s11
        }
    }

    fn push_async_arg(&self, serializer: &mut CallDataSerializer) -> (r: Result<(), SCError>) {
        let ghost start = serializer@;
        self.0.0.push_async_arg(serializer)?;
        let ghost written = self.0.0.async_written();
        push_part(&self.0.1, serializer, Ghost(start), Ghost(written))?;
        let ghost written = written + self.0.1.async_written();
        push_part(&self.0.2, serializer, Ghost(start), Ghost(written))?;
        let ghost written = written + self.0.2.async_written();
        push_part(&self.0.3, serializer, Ghost(start), Ghost(written))?;
        let ghost written = written + self.0.3.async_written();
        push_part(&self.0.4, serializer, Ghost(start), Ghost(written))?;
        let ghost written = written + self.0.4.async_written();
        push_part(&self.0.5, serializer, Ghost(start), Ghost(written))?;
        let ghost written = written + self.0.5.async_written();
        push_part(&self.0.6, serializer, Ghost(start), Ghost(written))?;
        let ghost written = written + self.0.6.async_written();
        push_part(&self.0.7, serializer, Ghost(start), Ghost(written))?;
        let ghost written = written + self.0.7.async_written();
        push_part(&self.0.8, serializer, Ghost(start), Ghost(written))?;
        let ghost written = written + self.0.8.async_written();
        push_part(&self.0.9, serializer, Ghost(start), Ghost(written))?;
        let ghost written = written + self.0.9.async_written();
        push_part(&self.0.10, serializer, Ghost(start), Ghost(written))?;
        Ok(())
    }
}

/// Twelve results, each of its own type, written in their order.
pub struct MultiResult12<
    T0, T1, T2, T3, T4, T5, T6, T7, T8, T9, T10, T11,
>(pub (T0, T1, T2, T3, T4, T5, T6, T7, T8, T9, T10, T11));

impl<
    T0: AsynCallArg, T1: AsynCallArg, T2: AsynCallArg, T3: AsynCallArg, T4: AsynCallArg,
    T5: AsynCallArg, T6: AsynCallArg, T7: AsynCallArg, T8: AsynCallArg, T9: AsynCallArg,
    T10: AsynCallArg, T11: AsynCallArg,
> AsynCallArg for MultiResult12<T0, T1, T2, T3, T4, T5, T6, T7, T8, T9, T10, T11> {
    /// The parts contribute one after the other; the first error ends
    /// it.
    open spec fn async_args(&self) -> Result<Seq<Seq<u8>>, SCError> {
        let w0 = self.0.0.async_args();
        let w1 = self.0.1.async_args();
        let w2 = self.0.2.async_args();
        let w3 = self.0.3.async_args();
        let w4 = self.0.4.async_args();
        let w5 = self.0.5.async_args();
        let w6 = self.0.6.async_args();
        let w7 = self.0.7.async_args();
        let w8 = self.0.8.async_args();
        let w9 = self.0.9.async_args();
        let w10 = self.0.10.async_args();
        let w11 = self.0.11.async_args();
        if w0 is Err {
            Err(w0->Err_0)
        } else if w1 is Err {
            Err(w1->Err_0)
        } else if w2 is Err {
            Err(w2->Err_0)
        } else if w3 is Err {
            Err(w3->Err_0)
        } else if w4 is Err {
            Err(w4->Err_0)
        } else if w5 is Err {
            Err(w5->Err_0)
        } else if w6 is Err {
            Err(w6->Err_0)
        } else if w7 is Err {
            Err(w7->Err_0)
        } else if w8 is Err {
            Err(w8->Err_0)
        } else if w9 is Err {
            Err(w9->Err_0)
        } else if w10 is Err {
            Err(w10->Err_0)
        } else if w11 is Err {
            Err(w11->Err_0)
        } else {
            Ok(
                w0->Ok_0 + w1->Ok_0 + w2->Ok_0 + w3->Ok_0 + w4->Ok_0 + w5->Ok_0 + w6->Ok_0 +
                    w7->Ok_0 + w8->Ok_0 + w9->Ok_0 + w10->Ok_0 + w11->Ok_0,
            )
        }
    }

    /// The parts are written one after the other, up to the first that
    /// fails.
    open spec fn async_written(&self) -> Seq<Seq<u8>> {
        let s1 = self.0.0.async_written();
        let s2 = s1 + self.0.1.async_written();
        let s3 = s2 + self.0.2.async_written();
        let s4 = s3 + self.0.3.async_written();
        let s5 = s4 + self.0.4.async_written();
        let s6 = s5 + self.0.5.async_written();
        let s7 = s6 + self.0.6.async_written();
        let s8 = s7 + self.0.7.async_written();
        let s9 = s8 + self.0.8.async_written();
        let s10 = s9 + self.0.9.async_written();
        let s11 = s10 + self.0.10.async_written();
        let s12 = s11 + self.0.11.async_written();
        if self.0.0.async_args() is Err {
            s1
        } else if self.0.1.async_args() is Err {
            s2
        } else if self.0.2.async_args() is Err {
            s3
        } else if self.0.3.async_args() is Err {
            s4
        } else if self.0.4.async_args() is Err {
            s5
        } else if self.0.5.async_args() is Err {
            s6
        } else if self.0.6.async_args() is Err {
            s7
        } else if self.0.7.async_args() is Err {
            s8
        } else if self.0.8.async_args() is Err {
            s9
        } else if self.0.9.async_args() is Err {
            s10
        } else if self.0.10.async_args() is Err {
            s11
        } else {
            s12
        }
    }

    fn push_async_arg(&self, serializer: &mut CallDataSerializer) -> (r: Result<(), SCError>) {
        let ghost start = serializer@;
        self.0.0.push_async_arg(serializer)?;
        let ghost written = self.0.0.async_written();
        push_part(&self.0.1, serializer, Ghost(start), Ghost(written))?;
        let ghost written = written + self.0.1.async_written();
        push_part(&self.0.2, serializer, Ghost(start), Ghost(written))?;
        let ghost written = written + self.0.2.async_written();
        push_part(&self.0.3, serializer, Ghost(start), Ghost(written))?;
        let ghost written = written + self.0.3.async_written();
        push_part(&self.0.4, serializer, Ghost(start), Ghost(written))?;
        let ghost written = written + self.0.4.async_written();
        push_part(&self.0.5, serializer, Ghost(start), Ghost(written))?;
        let ghost written = written + self.0.5.async_written();
        push_part(&self.0.6, serializer, Ghost(start), Ghost(written))?;
        let ghost written = written + self.0.6.async_written();
        push_part(&self.0.7, serializer, Ghost(start), Ghost(written))?;
        let ghost written = written + self.0.7.async_written();
        push_part(&self.0.8, serializer, Ghost(start), Ghost(written))?;
        let ghost written = written + self.0.8.async_written();
        push_part(&self.0.9, serializer, Ghost(start), Ghost(written))?;
        let ghost written = written + self.0.9.async_written();
        push_part(&self.0.10, serializer, Ghost(start), Ghost(written))?;
        let ghost written = written + self.0.10.async_written();
        push_part(&self.0.11, serializer, Ghost(start), Ghost(written))?;
        Ok(())
    }
}

/// Thirteen results, each of its own type, written in their order.
pub struct MultiResult13<
    T0, T1, T2, T3, T4, T5, T6, T7, T8, T9, T10, T11, T12,
>(pub (T0, T1, T2, T3, T4, T5, T6, T7, T8, T9, T10, T11, T12));

impl<
    T0: AsynCallArg, T1: AsynCallArg, T2: AsynCallArg, T3: AsynCallArg, T4: AsynCallArg,
    T5: AsynCallArg, T6: AsynCallArg, T7: AsynCallArg, T8: AsynCallArg, T9: AsynCallArg,
    T10: AsynCallArg, T11: AsynCallArg, T12: AsynCallArg,
> AsynCallArg for MultiResult13<T0, T1, T2, T3, T4, T5, T6, T7, T8, T9, T10, T11, T12> {
    /// The parts contribute one after the other; the first error ends
    /// it.
    open spec fn async_args(&self) -> Result<Seq<Seq<u8>>, SCError> {
        let w0 = self.0.0.async_args();
        let w1 = self.0.1.async_args();
        let w2 = self.0.2.async_args();
        let w3 = self.0.3.async_args();
        let w4 = self.0.4.async_args();
        let w5 = self.0.5.async_args();
        let w6 = self.0.6.async_args();
        let w7 = self.0.7.async_args();
        let w8 = self.0.8.async_args();
        let w9 = self.0.9.async_args();
        let w10 = self.0.10.async_args();
        let w11 = self.0.11.async_args();
        let w12 = self.0.12.async_args();
        if w0 is Err {
            Err(w0->Err_0)
        } else if w1 is Err {
            Err(w1->Err_0)
        } else if w2 is Err {
            Err(w2->Err_0)
        } else if w3 is Err {
            Err(w3->Err_0)
        } else if w4 is Err {
            Err(w4->Err_0)
        } else if w5 is Err {
            Err(w5->Err_0)
        } else if w6 is Err {
            Err(w6->Err_0)
        } else if w7 is Err {
            Err(w7->Err_0)
        } else if w8 is Err {
            Err(w8->Err_0)
        } else if w9 is Err {
            Err(w9->Err_0)
        } else if w10 is Err {
            Err(w10->Err_0)
        } else if w11 is Err {
            Err(w11->Err_0)
        } else if w12 is Err {
            Err(w12->Err_0)
        } else {
            Ok(
                w0->Ok_0 + w1->Ok_0 + w2->Ok_0 + w3->Ok_0 + w4->Ok_0 + w5->Ok_0 + w6->Ok_0 +
                    w7->Ok_0 + w8->Ok_0 + w9->Ok_0 + w10->Ok_0 + w11->Ok_0 + w12->Ok_0,
            )
        }
    }

    /// The parts are written one after the other, up to the first that
    /// fails.
    open spec fn async_written(&self) -> Seq<Seq<u8>> {
        let s1 = self.0.0.async_written();
        let s2 = s1 + self.0.1.async_written();
        let s3 = s2 + self.0.2.async_written();
        let s4 = s3 + self.0.3.async_written();
        let s5 = s4 + self.0.4.async_written();
        let s6 = s5 + self.0.5.async_written();
        let s7 = s6 + self.0.6.async_written();
        let s8 = s7 + self.0.7.async_written();
        let s9 = s8 + self.0.8.async_written();
        let s10 = s9 + self.0.9.async_written();
        let s11 = s10 + self.0.10.async_written();
        let s12 = s11 + self.0.11.async_written();
        let s13 = s12 + self.0.12.async_written();
        if self.0.0.async_args() is Err {
            s1
        } else if self.0.1.async_args() is Err {
            s2
        } else if self.0.2.async_args() is Err {
            s3
        } else if self.0.3.async_args() is Err {
            s4
        } else if self.0.4.async_args() is Err {
            s5
        } else if self.0.5.async_args() is Err {
            s6
        } else if self.0.6.async_args() is Err {
            s7
        } else if self.0.7.async_args() is Err {
            s8
        } else if self.0.8.async_args() is Err {
            s9
        } else if self.0.9.async_args() is Err {
            s10
        } else if self.0.10.async_args() is Err {
            s11
        } else if self.0.11.async_args() is Err {
            s12
        } else {
            s13
        }
    }

    fn push_async_arg(&self, serializer: &mut CallDataSerializer) -> (r: Result<(), SCError>) {
        let ghost start = serializer@;
        self.0.0.push_async_arg(serializer)?;
        let ghost written = self.0.0.async_written();
        push_part(&self.0.1, serializer, Ghost(start), Ghost(written))?;
        let ghost written = written + self.0.1.async_written();
        push_part(&self.0.2, serializer, Ghost(start), Ghost(written))?;
        let ghost written = written + self.0.2.async_written();
        push_part(&self.0.3, serializer, Ghost(start), Ghost(written))?;
        let ghost written = written + self.0.3.async_written();
        push_part(&self.0.4, serializer, Ghost(start), Ghost(written))?;
        let ghost written = written + self.0.4.async_written();
        push_part(&self.0.5, serializer, Ghost(start), Ghost(written))?;
        let ghost written = written + self.0.5.async_written();
        push_part(&self.0.6, serializer, Ghost(start), Ghost(written))?;
        let ghost written = written + self.0.6.async_written();
        push_part(&self.0.7, serializer, Ghost(start), Ghost(written))?;
        let ghost written = written + self.0.7.async_written();
        push_part(&self.0.8, serializer, Ghost(start), Ghost(written))?;
        let ghost written = written + self.0.8.async_written();
        push_part(&self.0.9, serializer, Ghost(start), Ghost(written))?;
        let ghost written = written + self.0.9.async_written();
        push_part(&self.0.10, serializer, Ghost(start), Ghost(written))?;
        let ghost written = written + self.0.10.async_written();
        push_part(&self.0.11, serializer, Ghost(start), Ghost(written))?;
        let ghost written = written + self.0.11.async_written();
        push_part(&self.0.12, serializer, Ghost(start), Ghost(written))?;
        Ok(())
    }
}

/// Fourteen results, each of its own type, written in their order.
pub struct MultiResult14<
    T0, T1, T2, T3, T4, T5, T6, T7, T8, T9, T10, T11, T12, T13,
>(pub (T0, T1, T2, T3, T4, T5, T6, T7, T8, T9, T10, T11, T12, T13));

impl<
    T0: AsynCallArg, T1: AsynCallArg, T2: AsynCallArg, T3: AsynCallArg, T4: AsynCallArg,
    T5: AsynCallArg, T6: AsynCallArg, T7: AsynCallArg, T8: AsynCallArg, T9: AsynCallArg,
    T10: AsynCallArg, T11: AsynCallArg, T12: AsynCallArg, T13: AsynCallArg,
> AsynCallArg for MultiResult14<T0, T1, T2, T3, T4, T5, T6, T7, T8, T9, T10, T11, T12, T13> {
    /// The parts contribute one after the other; the first error ends
    /// it.
    open spec fn async_args(&self) -> Result<Seq<Seq<u8>>, SCError> {
        let w0 = self.0.0.async_args();
        let w1 = self.0.1.async_args();
        let w2 = self.0.2.async_args();
        let w3 = self.0.3.async_args();
        let w4 = self.0.4.async_args();
        let w5 = self.0.5.async_args();
        let w6 = self.0.6.async_args();
        let w7 = self.0.7.async_args();
        let w8 = self.0.8.async_args();
        let w9 = self.0.9.async_args();
        let w10 = self.0.10.async_args();
        let w11 = self.0.11.async_args();
        let w12 = self.0.12.async_args();
        let w13 = self.0.13.async_args();
        if w0 is Err {
            Err(w0->Err_0)
        } else if w1 is Err {
            Err(w1->Err_0)
        } else if w2 is Err {
            Err(w2->Err_0)
        } else if w3 is Err {
            Err(w3->Err_0)
        } else if w4 is Err {
            Err(w4->Err_0)
        } else if w5 is Err {
            Err(w5->Err_0)
        } else if w6 is Err {
            Err(w6->Err_0)
        } else if w7 is Err {
            Err(w7->Err_0)
        } else if w8 is Err {
            Err(w8->Err_0)
        } else if w9 is Err {
            Err(w9->Err_0)
        } else if w10 is Err {
            Err(w10->Err_0)
        } else if w11 is Err {
            Err(w11->Err_0)
        } else if w12 is Err {
            Err(w12->Err_0)
        } else if w13 is Err {
            Err(w13->Err_0)
        } else {
            Ok(
                w0->Ok_0 + w1->Ok_0 + w2->Ok_0 + w3->Ok_0 + w4->Ok_0 + w5->Ok_0 + w6->Ok_0 +
                    w7->Ok_0 + w8->Ok_0 + w9->Ok_0 + w10->Ok_0 + w11->Ok_0 + w12->Ok_0 + w13->Ok_0,
            )
        }
    }

    /// The parts are written one after the other, up to the first that
    /// fails.
    open spec fn async_written(&self) -> Seq<Seq<u8>> {
        let s1 = self.0.0.async_written();
        let s2 = s1 + self.0.1.async_written();
        let s3 = s2 + self.0.2.async_written();
        let s4 = s3 + self.0.3.async_written();
        let s5 = s4 + self.0.4.async_written();
        let s6 = s5 + self.0.5.async_written();
        let s7 = s6 + self.0.6.async_written();
        let s8 = s7 + self.0.7.async_written();
        let s9 = s8 + self.0.8.async_written();
        let s10 = s9 + self.0.9.async_written();
        let s11 = s10 + self.0.10.async_written();
        let s12 = s11 + self.0.11.async_written();
        let s13 = s12 + self.0.12.async_written();
        let s14 = s13 + self.0.13.async_written();
        if self.0.0.async_args() is Err {
            s1
        } else if self.0.1.async_args() is Err {
            s2
        } else if self.0.2.async_args() is Err {
            s3
        } else if self.0.3.async_args() is Err {
            s4
        } else if self.0.4.async_args() is Err {
            s5
        } else if self.0.5.async_args() is Err {
            s6
        } else if self.0.6.async_args() is Err {
            s7
        } else if self.0.7.async_args() is Err {
            s8
        } else if self.0.8.async_args() is Err {
            s9
        } else if self.0.9.async_args() is Err {
            s10
        } else if self.0.10.async_args() is Err {
            s11
        } else if self.0.11.async_args() is Err {
            s12
        } else if self.0.12.async_args() is Err {
            s13
        } else {
            s14
        }
    }

    fn push_async_arg(&self, serializer: &mut CallDataSerializer) -> (r: Result<(), SCError>) {
        let ghost start = serializer@;
        self.0.0.push_async_arg(serializer)?;
        let ghost written = self.0.0.async_written();
        push_part(&self.0.1, serializer, Ghost(start), Ghost(written))?;
        let ghost written = written + self.0.1.async_written();
        push_part(&self.0.2, serializer, Ghost(start), Ghost(written))?;
        let ghost written = written + self.0.2.async_written();
        push_part(&self.0.3, serializer, Ghost(start), Ghost(written))?;
        let ghost written = written + self.0.3.async_written();
        push_part(&self.0.4, serializer, Ghost(start), Ghost(written))?;
        let ghost written = written + self.0.4.async_written();
        push_part(&self.0.5, serializer, Ghost(start), Ghost(written))?;
        let ghost written = written + self.0.5.async_written();
        push_part(&self.0.6, serializer, Ghost(start), Ghost(written))?;
        let ghost written = written + self.0.6.async_written();
        push_part(&self.0.7, serializer, Ghost(start), Ghost(written))?;
        let ghost written = written + self.0.7.async_written();
        push_part(&self.0.8, serializer, Ghost(start), Ghost(written))?;
        let ghost written = written + self.0.8.async_written();
        push_part(&self.0.9, serializer, Ghost(start), Ghost(written))?;
        let ghost written = written + self.0.9.async_written();
        push_part(&self.0.10, serializer, Ghost(start), Ghost(written))?;
        let ghost written = written + self.0.10.async_written();
        push_part(&self.0.11, serializer, Ghost(start), Ghost(written))?;
        let ghost written = written + self.0.11.async_written();
        push_part(&self.0.12, serializer, Ghost(start), Ghost(written))?;
        let ghost written = written + self.0.12.async_written();
        push_part(&self.0.13, serializer, Ghost(start), Ghost(written))?;
        Ok(())
    }
}

/// Fifteen results, each of its own type, written in their order.
pub struct MultiResult15<
    T0, T1, T2, T3, T4, T5, T6, T7, T8, T9, T10, T11, T12, T13, T14,
>(pub (T0, T1, T2, T3, T4, T5, T6, T7, T8, T9, T10, T11, T12, T13, T14));

impl<
    T0: AsynCallArg, T1: AsynCallArg, T2: AsynCallArg, T3: AsynCallArg, T4: AsynCallArg,
    T5: AsynCallArg, T6: AsynCallArg, T7: AsynCallArg, T8: AsynCallArg, T9: AsynCallArg,
    T10: AsynCallArg, T11: AsynCallArg, T12: AsynCallArg, T13: AsynCallArg, T14: AsynCallArg,
> AsynCallArg for MultiResult15<T0, T1, T2, T3, T4, T5, T6, T7, T8, T9, T10, T11, T12, T13, T14> {
    /// The parts contribute one after the other; the first error ends
    /// it.
    open spec fn async_args(&self) -> Result<Seq<Seq<u8>>, SCError> {
        let w0 = self.0.0.async_args();
        let w1 = self.0.1.async_args();
        let w2 = self.0.2.async_args();
        let w3 = self.0.3.async_args();
        let w4 = self.0.4.async_args();
        let w5 = self.0.5.async_args();
        let w6 = self.0.6.async_args();
        let w7 = self.0.7.async_args();
        let w8 = self.0.8.async_args();
        let w9 = self.0.9.async_args();
        let w10 = self.0.10.async_args();
        let w11 = self.0.11.async_args();
        let w12 = self.0.12.async_args();
        let w13 = self.0.13.async_args();
        let w14 = self.0.14.async_args();
        if w0 is Err {
            Err(w0->Err_0)
        } else if w1 is Err {
            Err(w1->Err_0)
        } else if w2 is Err {
            Err(w2->Err_0)
        } else if w3 is Err {
            Err(w3->Err_0)
        } else if w4 is Err {
            Err(w4->Err_0)
        } else if w5 is Err {
            Err(w5->Err_0)
        } else if w6 is Err {
            Err(w6->Err_0)
        } else if w7 is Err {
            Err(w7->Err_0)
        } else if w8 is Err {
            Err(w8->Err_0)
        } else if w9 is Err {
            Err(w9->Err_0)
        } else if w10 is Err {
            Err(w10->Err_0)
        } else if w11 is Err {
            Err(w11->Err_0)
        } else if w12 is Err {
            Err(w12->Err_0)
        } else if w13 is Err {
            Err(w13->Err_0)
        } else if w14 is Err {
            Err(w14->Err_0)
        } else {
            Ok(
                w0->Ok_0 + w1->Ok_0 + w2->Ok_0 + w3->Ok_0 + w4->Ok_0 + w5->Ok_0 + w6->Ok_0 +
                    w7->Ok_0 + w8->Ok_0 + w9->Ok_0 + w10->Ok_0 + w11->Ok_0 + w12->Ok_0 +
                    w13->Ok_0 + w14->Ok_0,
            )
        }
    }

    /// The parts are written one after the other, up to the first that
    /// fails.
    open spec fn async_written(&self) -> Seq<Seq<u8>> {
        let s1 = self.0.0.async_written();
        let s2 = s1 + self.0.1.async_written();
        let s3 = s2 + self.0.2.async_written();
        let s4 = s3 + self.0.3.async_written();
        let s5 = s4 + self.0.4.async_written();
        let s6 = s5 + self.0.5.async_written();
        let s7 = s6 + self.0.6.async_written();
        let s8 = s7 + self.0.7.async_written();
        let s9 = s8 + self.0.8.async_written();
        let s10 = s9 + self.0.9.async_written();
        let s11 = s10 + self.0.10.async_written();
        let s12 = s11 + self.0.11.async_written();
        let s13 = s12 + self.0.12.async_written();
        let s14 = s13 + self.0.13.async_written();
        let s15 = s14 + self.0.14.async_written();
        if self.0.0.async_args() is Err {
            s1
        } else if self.0.1.async_args() is Err {
            s2
        } else if self.0.2.async_args() is Err {
            s3
        } else if self.0.3.async_args() is Err {
            s4
        } else if self.0.4.async_args() is Err {
            s5
        } else if self.0.5.async_args() is Err {
            s6
        } else if self.0.6.async_args() is Err {
            s7
        } else if self.0.7.async_args() is Err {
            s8
        } else if self.0.8.async_args() is Err {
            s9
        } else if self.0.9.async_args() is Err {
            s10
        } else if self.0.10.async_args() is Err {
            s11
        } else if self.0.11.async_args() is Err {
            s12
        } else if self.0.12.async_args() is Err {
            s13
        } else if self.0.13.async_args() is Err {
            s14
        } else {
            s15
        }
    }

    fn push_async_arg(&self, serializer: &mut CallDataSerializer) -> (r: Result<(), SCError>) {
        let ghost start = serializer@;
        self.0.0.push_async_arg(serializer)?;
        let ghost written = self.0.0.async_written();
        push_part(&self.0.1, serializer, Ghost(start), Ghost(written))?;
        let ghost written = written + self.0.1.async_written();
        push_part(&self.0.2, serializer, Ghost(start), Ghost(written))?;
        let ghost written = written + self.0.2.async_written();
        push_part(&self.0.3, serializer, Ghost(start), Ghost(written))?;
        let ghost written = written + self.0.3.async_written();
        push_part(&self.0.4, serializer, Ghost(start), Ghost(written))?;
        let ghost written = written + self.0.4.async_written();
        push_part(&self.0.5, serializer, Ghost(start), Ghost(written))?;
        let ghost written = written + self.0.5.async_written();
        push_part(&self.0.6, serializer, Ghost(start), Ghost(written))?;
        let ghost written = written + self.0.6.async_written();
        push_part(&self.0.7, serializer, Ghost(start), Ghost(written))?;
        let ghost written = written + self.0.7.async_written();
        push_part(&self.0.8, serializer, Ghost(start), Ghost(written))?;
        let ghost written = written + self.0.8.async_written();
        push_part(&self.0.9, serializer, Ghost(start), Ghost(written))?;
        let ghost written = written + self.0.9.async_written();
        push_part(&self.0.10, serializer, Ghost(start), Ghost(written))?;
        let ghost written = written + self.0.10.async_written();
        push_part(&self.0.11, serializer, Ghost(start), Ghost(written))?;
        let ghost written = written + self.0.11.async_written();
        push_part(&self.0.12, serializer, Ghost(start), Ghost(written))?;
        let ghost written = written + self.0.12.async_written();
        push_part(&self.0.13, serializer, Ghost(start), Ghost(written))?;
        let ghost written = written + self.0.13.async_written();
        push_part(&self.0.14, serializer, Ghost(start), Ghost(written))?;
        Ok(())
    }
}

/// Sixteen results, each of its own type, written in their order.
pub struct MultiResult16<
    T0, T1, T2, T3, T4, T5, T6, T7, T8, T9, T10, T11, T12, T13, T14, T15,
>(pub (T0, T1, T2, T3, T4, T5, T6, T7, T8, T9, T10, T11, T12, T13, T14, T15));

impl<
    T0: AsynCallArg, T1: AsynCallArg, T2: AsynCallArg, T3: AsynCallArg, T4: AsynCallArg,
    T5: AsynCallArg, T6: AsynCallArg, T7: AsynCallArg, T8: AsynCallArg, T9: AsynCallArg,
    T10: AsynCallArg, T11: AsynCallArg, T12: AsynCallArg, T13: AsynCallArg, T14: AsynCallArg,
    T15: AsynCallArg,
> AsynCallArg for MultiResult16<
    T0, T1, T2, T3, T4, T5, T6, T7, T8, T9, T10, T11, T12, T13, T14, T15,
> {
    /// The parts contribute one after the other; the first error ends
    /// it.
    open spec fn async_args(&self) -> Result<Seq<Seq<u8>>, SCError> {
        let w0 = self.0.0.async_args();
        let w1 = self.0.1.async_args();
        let w2 = self.0.2.async_args();
        let w3 = self.0.3.async_args();
        let w4 = self.0.4.async_args();
        let w5 = self.0.5.async_args();
        let w6 = self.0.6.async_args();
        let w7 = self.0.7.async_args();
        let w8 = self.0.8.async_args();
        let w9 = self.0.9.async_args();
        let w10 = self.0.10.async_args();
        let w11 = self.0.11.async_args();
        let w12 = self.0.12.async_args();
        let w13 = self.0.13.async_args();
        let w14 = self.0.14.async_args();
        let w15 = self.0.15.async_args();
        if w0 is Err {
            Err(w0->Err_0)
        } else if w1 is Err {
            Err(w1->Err_0)
        } else if w2 is Err {
            Err(w2->Err_0)
        } else if w3 is Err {
            Err(w3->Err_0)
        } else if w4 is Err {
            Err(w4->Err_0)
        } else if w5 is Err {
            Err(w5->Err_0)
        } else if w6 is Err {
            Err(w6->Err_0)
        } else if w7 is Err {
            Err(w7->Err_0)
        } else if w8 is Err {
            Err(w8->Err_0)
        } else if w9 is Err {
            Err(w9->Err_0)
        } else if w10 is Err {
            Err(w10->Err_0)
        } else if w11 is Err {
            Err(w11->Err_0)
        } else if w12 is Err {
            Err(w12->Err_0)
        } else if w13 is Err {
            Err(w13->Err_0)
        } else if w14 is Err {
            Err(w14->Err_0)
        } else if w15 is Err {
            Err(w15->Err_0)
        } else {
            Ok(
                w0->Ok_0 + w1->Ok_0 + w2->Ok_0 + w3->Ok_0 + w4->Ok_0 + w5->Ok_0 + w6->Ok_0 +
                    w7->Ok_0 + w8->Ok_0 + w9->Ok_0 + w10->Ok_0 + w11->Ok_0 + w12->Ok_0 +
                    w13->Ok_0 + w14->Ok_0 + w15->Ok_0,
            )
        }
    }

    /// The parts are written one after the other, up to the first that
    /// fails.
    open spec fn async_written(&self) -> Seq<Seq<u8>> {
        let s1 = self.0.0.async_written();
        let s2 = s1 + self.0.1.async_written();
        let s3 = s2 + self.0.2.async_written();
        let s4 = s3 + self.0.3.async_written();
        let s5 = s4 + self.0.4.async_written();
        let s6 = s5 + self.0.5.async_written();
        let s7 = s6 + self.0.6.async_written();
        let s8 = s7 + self.0.7.async_written();
        let s9 = s8 + self.0.8.async_written();
        let s10 = s9 + self.0.9.async_written();
        let s11 = s10 + self.0.10.async_written();
        let s12 = s11 + self.0.11.async_written();
        let s13 = s12 + self.0.12.async_written();
        let s14 = s13 + self.0.13.async_written();
        let s15 = s14 + self.0.14.async_written();
        let s16 = s15 + self.0.15.async_written();
        if self.0.0.async_args() is Err {
            s1
        } else if self.0.1.async_args() is Err {
            s2
        } else if self.0.2.async_args() is Err {
            s3
        } else if self.0.3.async_args() is Err {
            s4
        } else if self.0.4.async_args() is Err {
            s5
        } else if self.0.5.async_args() is Err {
            s6
        } else if self.0.6.async_args() is Err {
            s7
        } else if self.0.7.async_args() is Err {
            s8
        } else if self.0.8.async_args() is Err {
            s9
        } else if self.0.9.async_args() is Err {
            s10
        } else if self.0.10.async_args() is Err {
            s11
        } else if self.0.11.async_args() is Err {
            s12
        } else if self.0.12.async_args() is Err {
            s13
        } else if self.0.13.async_args() is Err {
            s14
        } else if self.0.14.async_args() is Err {
            s15
        } else {
            s16
        }
    }

    fn push_async_arg(&self, serializer: &mut CallDataSerializer) -> (r: Result<(), SCError>) {
        let ghost start = serializer@;
        self.0.0.push_async_arg(serializer)?;
        let ghost written = self.0.0.async_written();
        push_part(&self.0.1, serializer, Ghost(start), Ghost(written))?;
        let ghost written = written + self.0.1.async_written();
        push_part(&self.0.2, serializer, Ghost(start), Ghost(written))?;
        let ghost written = written + self.0.2.async_written();
        push_part(&self.0.3, serializer, Ghost(start), Ghost(written))?;
        let ghost written = written + self.0.3.async_written();
        push_part(&self.0.4, serializer, Ghost(start), Ghost(written))?;
        let ghost written = written + self.0.4.async_written();
        push_part(&self.0.5, serializer, Ghost(start), Ghost(written))?;
        let ghost written = written + self.0.5.async_written();
        push_part(&self.0.6, serializer, Ghost(start), Ghost(written))?;
        let ghost written = written + self.0.6.async_written();
        push_part(&self.0.7, serializer, Ghost(start), Ghost(written))?;
        let ghost written = written + self.0.7.async_written();
        push_part(&self.0.8, serializer, Ghost(start), Ghost(written))?;
        let ghost written = written + self.0.8.async_written();
        push_part(&self.0.9, serializer, Ghost(start), Ghost(written))?;
        let ghost written = written + self.0.9.async_written();
        push_part(&self.0.10, serializer, Ghost(start), Ghost(written))?;
        let ghost written = written + self.0.10.async_written();
        push_part(&self.0.11, serializer, Ghost(start), Ghost(written))?;
        let ghost written = written + self.0.11.async_written();
        push_part(&self.0.12, serializer, Ghost(start), Ghost(written))?;
        let ghost written = written + self.0.12.async_written();
        push_part(&self.0.13, serializer, Ghost(start), Ghost(written))?;
        let ghost written = written + self.0.13.async_written();
        push_part(&self.0.14, serializer, Ghost(start), Ghost(written))?;
        let ghost written = written + self.0.14.async_written();
        push_part(&self.0.15, serializer, Ghost(start), Ghost(written))?;
        Ok(())
    }
}

} // verus!
