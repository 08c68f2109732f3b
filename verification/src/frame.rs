//! Protocol frames: the values a client sends and the server replies with.

use vstd::prelude::*;
use vstd::slice::slice_to_vec;

verus! {

/// One protocol frame.
///
/// A request is an `Array` whose first element names the command and whose
/// remaining elements are its arguments. `Null` is the absent bulk string:
/// it is what a lookup of a missing key replies with.
#[derive(Debug, PartialEq, Eq)]
pub enum Frame {
    /// A short status line, as raw bytes.
    SimpleString(Vec<u8>),
    /// An error line.
    Error(String),
    /// A signed 64-bit integer.
    Integer(i64),
    /// A binary-safe string.
    BulkString(Vec<u8>),
    /// An ordered sequence of frames.
    Array(Vec<Frame>),
    /// The absent value.
    Null,
}

/// The mathematical value of a [`Frame`].
pub enum FrameView {
    SimpleString(Seq<u8>),
    Error(Seq<char>),
    Integer(i64),
    BulkString(Seq<u8>),
    Array(Seq<FrameView>),
    Null,
}

/// The value of a frame, by recursion over nested arrays.
pub open spec fn frame_view(frame: Frame) -> FrameView
    decreases frame,
{
    match frame {
        Frame::SimpleString(bytes) => FrameView::SimpleString(bytes@),
        Frame::Error(text) => FrameView::Error(text@),
        Frame::Integer(n) => FrameView::Integer(n),
        Frame::BulkString(bytes) => FrameView::BulkString(bytes@),
        Frame::Array(items) => FrameView::Array(
            Seq::new(
                items.len() as nat,
                |i: int|
                    if 0 <= i < items.len() {
                        frame_view(items[i])
                    } else {
                        FrameView::Null
                    },
            ),
        ),
        Frame::Null => FrameView::Null,
    }
}

impl View for Frame {
    type V = FrameView;

    open spec fn view(&self) -> FrameView {
        frame_view(*self)
    }
}

/// The values of the frames of a vector, in order.
pub open spec fn frames_view(items: Seq<Frame>) -> Seq<FrameView> {
    Seq::new(items.len(), |i: int| items[i]@)
}

/// The value of an `Array` frame is the array of its elements' values.
pub proof fn lemma_array_view(items: Vec<Frame>)
    ensures
        Frame::Array(items)@ == FrameView::Array(frames_view(items@)),
{
    assert(Frame::Array(items)@->Array_0 =~= frames_view(items@));
}

impl Clone for Frame {
    /// A deep copy: the copy has the same value as the frame it was made of.
    fn clone(&self) -> (copy: Frame)
        ensures
            copy@ == self@,
        decreases self,
    {
        match self {
            Frame::SimpleString(bytes) => Frame::SimpleString(slice_to_vec(bytes.as_slice())),
            Frame::Error(text) => Frame::Error(text.clone()),
            Frame::Integer(n) => Frame::Integer(*n),
            Frame::BulkString(bytes) => Frame::BulkString(slice_to_vec(bytes.as_slice())),
            Frame::Array(items) => {
                let mut copies: Vec<Frame> = Vec::new();
                let mut i: usize = 0;
                while i < items.len()
                    invariant
                        i <= items.len(),
                        copies@.len() == i,
                        forall|j: int| 0 <= j < i ==> copies@[j]@ == items@[j]@,
                        *self == Frame::Array(*items),
                    decreases items.len() - i,
                {
                    assert(decreases_to!(*self => self->Array_0));
                    let copy = items[i].clone();
                    copies.push(copy);
                    i += 1;
                }
                proof {
                    lemma_array_view(copies);
                    lemma_array_view(*items);
                    assert(frames_view(copies@) =~= frames_view(items@));
                }
                Frame::Array(copies)
            },
            Frame::Null => Frame::Null,
        }
    }
}

} // verus!
