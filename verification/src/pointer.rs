//! The cursor element: at most one cached image buffer, drawn at the pointer.

use vstd::prelude::*;

verus! {

/// Holds the cursor's image buffer once it has been loaded.
pub struct PointerElement<B> {
    pub buffer: Option<B>,
}

impl<B> PointerElement<B> {
    /// An element without an image.
    pub fn new() -> (element: PointerElement<B>)
        ensures
            element.buffer.is_none(),
    {
        PointerElement { buffer: None }
    }

    /// Caches the cursor's image, in place of any image held before.
    pub fn set_buffer(&mut self, buffer: B)
        ensures
            final(self).buffer == Some(buffer),
    {
        self.buffer = Some(buffer);
    }

    /// Whether the image still has to be loaded.
    pub fn needs_image(&self) -> (needed: bool)
        ensures
            needed == self.buffer.is_none(),
    {
        self.buffer.is_none()
    }

    /// How many render elements the cursor contributes to a frame: one once
    /// its image is cached, none before.
    pub fn element_count(&self) -> (count: usize)
        ensures
            count == (if self.buffer.is_some() {
                1usize
            } else {
                0usize
            }),
    {
        match self.buffer {
            Some(_) => 1,
            None => 0,
        }
    }
}

} // verus!
