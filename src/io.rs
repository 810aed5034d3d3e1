use vstd::prelude::*;
use crate::input::InputState;

verus! {

/// Where the host's joypads are read. The console samples it through
/// `Nes::set_input_state`.
pub trait Input {
    fn input_state(&self) -> InputState;
}

/// Where finished frames go.
pub trait Video {
    fn present_frame(&mut self, frame_number: u64);
}

/// A video sink that drops every frame.
pub struct NullVideo;

impl Video for NullVideo {
    fn present_frame(&mut self, frame_number: u64) {
    }
}

/// The two I/O capabilities of the console under one type parameter.
pub trait NesIo {
    type Video: Video;
    type Input: Input;

    fn video(&self) -> &Self::Video;

    fn input(&self) -> &Self::Input;
}

pub struct NesIoWith<V: Video, I: Input> {
    pub video: V,
    pub input: I,
}

impl<V: Video, I: Input> NesIo for NesIoWith<V, I> {
    type Video = V;
    type Input = I;

    fn video(&self) -> &V {
        &self.video
    }

    fn input(&self) -> &I {
        &self.input
    }
}

} // verus!
