use vstd::prelude::*;

verus! {

/// The acknowledgement of an IBC packet: a result or an error.
#[derive(Clone, Debug, PartialEq, Eq)]
pub enum Ack {
    Result(Vec<u8>),
    Error(String),
}

/// The mathematical value of an [`Ack`].
#[verifier::ext_equal]
pub enum AckView {
    Result(Seq<u8>),
    Error(Seq<char>),
}

impl View for Ack {
    type V = AckView;

    open spec fn view(&self) -> AckView {
        match self {
            Ack::Result(b) => AckView::Result(b@),
            Ack::Error(e) => AckView::Error(e@),
        }
    }
}

/// The acknowledgement of success: a result holding the single byte `1`.
pub fn make_ack_success() -> (a: Ack)
    ensures
        a@ == AckView::Result(seq![0x31u8]),
{
    Ack::Result(vec![0x31u8])
}

/// The acknowledgement of a failure with the given message.
pub fn make_ack_fail(err: String) -> (a: Ack)
    ensures
        a@ == AckView::Error(err@),
{
    Ack::Error(err)
}

} // verus!
