//! Background-facing data: the operations a background stage direction can
//! request and the message dispatched to the background collaborator.
use vstd::prelude::*;

verus! {

/// Compass direction of a sliding background transition.
#[derive(Clone, Copy, Debug, PartialEq, Eq, Structural)]
pub enum BackgroundDirection {
    North,
    South,
    East,
    West,
}

/// One background operation: a hard cut, a dissolve (to a picture or to
/// nothing), or a slide.
#[derive(Debug)]
pub enum BackgroundOperation {
    ChangeTo(String),
    DissolveTo(Option<String>),
    SlideTo(BackgroundDirection),
}

/// Mathematical image of a [`BackgroundOperation`].
pub enum BackgroundOperationV {
    ChangeTo(Seq<char>),
    DissolveTo(Option<Seq<char>>),
    SlideTo(BackgroundDirection),
}

impl View for BackgroundOperation {
    type V = BackgroundOperationV;

    open spec fn view(&self) -> BackgroundOperationV {
        match self {
            BackgroundOperation::ChangeTo(s) => BackgroundOperationV::ChangeTo(s@),
            BackgroundOperation::DissolveTo(o) => BackgroundOperationV::DissolveTo(
                match o {
                    Some(s) => Some(s@),
                    None => None,
                },
            ),
            BackgroundOperation::SlideTo(d) => BackgroundOperationV::SlideTo(*d),
        }
    }
}

impl Clone for BackgroundOperation {
    fn clone(&self) -> (r: Self)
        ensures
            r == *self,
    {
        match self {
            BackgroundOperation::ChangeTo(s) => BackgroundOperation::ChangeTo(s.clone()),
            BackgroundOperation::DissolveTo(o) => BackgroundOperation::DissolveTo(
                match o {
                    Some(s) => Some(s.clone()),
                    None => None,
                },
            ),
            BackgroundOperation::SlideTo(d) => BackgroundOperation::SlideTo(*d),
        }
    }
}

/// The command dispatched to the background collaborator.
#[derive(Debug)]
pub struct BackgroundChangeMessage {
    pub operation: BackgroundOperation,
}

/// Mathematical image of a [`BackgroundChangeMessage`].
pub struct BackgroundChangeMessageV {
    pub operation: BackgroundOperationV,
}

impl View for BackgroundChangeMessage {
    type V = BackgroundChangeMessageV;

    open spec fn view(&self) -> BackgroundChangeMessageV {
        BackgroundChangeMessageV { operation: self.operation@ }
    }
}

} // verus!
