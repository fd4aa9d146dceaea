//! What the display shows: one track's details and the player's flags.
use vstd::prelude::*;

verus! {

/// The data behind one frame. The empty value means no track, not playing,
/// not saved.
pub struct Model {
    pub track_name: String,
    pub track_artist: String,
    pub playing: bool,
    pub saved: bool,
}

impl Model {
    /// The model holds no track and neither flag is set.
    pub open spec fn is_empty(&self) -> bool {
        &&& self.track_name@.len() == 0
        &&& self.track_artist@.len() == 0
        &&& !self.playing
        &&& !self.saved
    }

    /// The empty model.
    pub fn empty() -> (r: Model)
        ensures
            r.is_empty(),
    {
        Model { track_name: String::new(), track_artist: String::new(), playing: false, saved: false }
    }
}

impl Default for Model {
    fn default() -> (r: Model)
        ensures
            r.is_empty(),
    {
        Model::empty()
    }
}

} // verus!
