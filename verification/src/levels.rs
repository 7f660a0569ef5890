use vstd::prelude::*;

verus! {

/// Represents a game level with an image template and falling speed.
#[derive(Clone, Copy, Debug)]
pub struct Level {
    /// Directory of the level's pictures.
    pub image_template: &'static str,
    /// Length units that an object falls in one update.
    pub fall_speed: i64,
}

/// The levels of the game, in the order in which they are played.
pub open spec fn level_table() -> Seq<Level> {
    seq![
        Level { image_template: "/Level1", fall_speed: 250 },
        Level { image_template: "/Level2", fall_speed: 300 },
        Level { image_template: "/Level3", fall_speed: 350 },
        Level { image_template: "/Level4", fall_speed: 400 },
    ]
}

/// Number of levels in the game.
pub const LEVEL_COUNT: usize = 4;

/// Returns a vector of predefined game levels.
///
/// Each level is characterized by an image template and a falling speed.
pub fn get_levels() -> (levels: Vec<Level>)
    ensures
        levels@ == level_table(),
        levels@.len() == LEVEL_COUNT,
{
    let levels = vec![
        Level { image_template: "/Level1", fall_speed: 250 },
        Level { image_template: "/Level2", fall_speed: 300 },
        Level { image_template: "/Level3", fall_speed: 350 },
        Level { image_template: "/Level4", fall_speed: 400 },
    ];
    assert(levels@ =~= level_table());
    levels
}

} // verus!
