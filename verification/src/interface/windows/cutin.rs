//! The window that shows an NPC's cutin image.
use super::WindowClass;
use vstd::prelude::*;

verus! {

/// A window that shows the cutin image `image_name`, drawn from `texture`.
pub struct CutinWindow<T> {
    pub texture: T,
    pub image_name: String,
}

impl<T> CutinWindow<T> {
    pub fn new(texture: T, image_name: String) -> (window: Self)
        ensures
            window.texture == texture,
            window.image_name == image_name,
    {
        Self { texture, image_name }
    }

    pub fn window_class() -> (class: Option<WindowClass>)
        ensures
            class == Some(WindowClass::Cutin),
    {
        Some(WindowClass::Cutin)
    }

    /// The window title: `Cutin - ` and the image name.
    pub fn title(&self) -> (title: String)
        ensures
            title@ == "Cutin - "@ + self.image_name@,
    {
        String::from_str("Cutin - ").concat(self.image_name.as_str())
    }
}

} // verus!
