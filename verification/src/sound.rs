use vstd::prelude::*;
use vstd::hash_map::StringHashMap;
use vstd::string::StringExecFns;
use crate::errors::DodgerError;
use crate::resources::Image;

verus! {

/// The sounds that the game asks for.
#[derive(Clone, Copy, PartialEq, Eq, Structural, Debug)]
pub enum Sound {
    GoodCollision,
    GoodCollisionHigh,
    BadCollision,
    GameOver,
    LevelCompleted,
    Victory,
}

impl Sound {
    /// The key under which the sound is registered.
    pub open spec fn key_spec(self) -> Seq<char> {
        match self {
            Sound::GoodCollision => "good_collision"@,
            Sound::GoodCollisionHigh => "good_collision_high"@,
            Sound::BadCollision => "bad_collision"@,
            Sound::GameOver => "game_over"@,
            Sound::LevelCompleted => "level_completed"@,
            Sound::Victory => "victory"@,
        }
    }

    /// The file that holds the sound.
    pub open spec fn path_spec(self) -> Seq<char> {
        match self {
            Sound::GoodCollision => "/Sounds/success.ogg"@,
            Sound::GoodCollisionHigh => "/Sounds/treasure.ogg"@,
            Sound::BadCollision => "/Sounds/failure-alert.ogg"@,
            Sound::GameOver => "/Sounds/fail-trombone.ogg"@,
            Sound::LevelCompleted => "/Sounds/level-completed.ogg"@,
            Sound::Victory => "/Sounds/fanfare.ogg"@,
        }
    }

    /// Returns the key under which the sound is registered.
    pub fn key(&self) -> (r: &'static str)
        ensures
            r@ == self.key_spec(),
    {
        match self {
            Sound::GoodCollision => "good_collision",
            Sound::GoodCollisionHigh => "good_collision_high",
            Sound::BadCollision => "bad_collision",
            Sound::GameOver => "game_over",
            Sound::LevelCompleted => "level_completed",
            Sound::Victory => "victory",
        }
    }
}

/// The registry of sounds: the file of each sound, under the sound's key.
pub open spec fn sound_table() -> Map<Seq<char>, Seq<char>> {
    Map::empty().insert(Sound::GoodCollision.key_spec(), Sound::GoodCollision.path_spec()).insert(
        Sound::GoodCollisionHigh.key_spec(),
        Sound::GoodCollisionHigh.path_spec(),
    ).insert(Sound::BadCollision.key_spec(), Sound::BadCollision.path_spec()).insert(
        Sound::GameOver.key_spec(),
        Sound::GameOver.path_spec(),
    ).insert(Sound::LevelCompleted.key_spec(), Sound::LevelCompleted.path_spec()).insert(
        Sound::Victory.key_spec(),
        Sound::Victory.path_spec(),
    )
}

/// Every sound of the game is registered, under its own key and with its own file.
pub proof fn lemma_every_sound_is_registered(sound: Sound)
    ensures
        sound_table().contains_key(sound.key_spec()),
        sound_table()[sound.key_spec()] == sound.path_spec(),
{
    reveal_strlit("good_collision");
    reveal_strlit("good_collision_high");
    reveal_strlit("bad_collision");
    reveal_strlit("game_over");
    reveal_strlit("level_completed");
    reveal_strlit("victory");
    assert(Sound::GoodCollision.key_spec().len() == 14);
    assert(Sound::GoodCollisionHigh.key_spec().len() == 19);
    assert(Sound::BadCollision.key_spec().len() == 13);
    assert(Sound::GameOver.key_spec().len() == 9);
    assert(Sound::LevelCompleted.key_spec().len() == 15);
    assert(Sound::Victory.key_spec().len() == 7);
}

/// **Manages audio-related functionality and resources in the game.**
///
/// ## Features
/// * Holds the registry of sound effects.
/// * Manages speaker icons for mute/unmute functionality.
/// * Allows toggling of mute functionality and looking up specific sounds.
pub struct AudioManager {
    pub speaker_icon: Image,
    pub speaker_muted_icon: Image,
    pub is_muted: bool,
    pub sounds: StringHashMap<String>,
}

impl AudioManager {
    /// The registry as a map from keys to file paths.
    pub open spec fn registry(&self) -> Map<Seq<char>, Seq<char>> {
        self.sounds@.map_values(|path: String| path@)
    }

    /// **Creates a new `AudioManager` and initializes its resources.**
    ///
    /// ## Parameters
    /// * `speaker_icon`: the icon of the sounding speaker.
    /// * `speaker_muted_icon`: the icon of the muted speaker.
    ///
    /// ## Behavior
    /// Initializes a map containing predefined sound keys and file paths.
    pub fn new(speaker_icon: Image, speaker_muted_icon: Image) -> (r: Self)
        ensures
            r.speaker_icon == speaker_icon,
            r.speaker_muted_icon == speaker_muted_icon,
            !r.is_muted,
            r.registry() == sound_table(),
    {
        let mut sounds: StringHashMap<String> = StringHashMap::new();
        sounds.insert(String::from_str("good_collision"), String::from_str("/Sounds/success.ogg"));
        sounds.insert(
            String::from_str("good_collision_high"),
            String::from_str("/Sounds/treasure.ogg"),
        );
        sounds.insert(
            String::from_str("bad_collision"),
            String::from_str("/Sounds/failure-alert.ogg"),
        );
        sounds.insert(String::from_str("game_over"), String::from_str("/Sounds/fail-trombone.ogg"));
        sounds.insert(
            String::from_str("level_completed"),
            String::from_str("/Sounds/level-completed.ogg"),
        );
        sounds.insert(String::from_str("victory"), String::from_str("/Sounds/fanfare.ogg"));

        let manager = AudioManager { speaker_icon, speaker_muted_icon, is_muted: false, sounds };
        assert(manager.registry() =~= sound_table());
        manager
    }

    /// **Looks up the sound effect corresponding to the specified key.**
    ///
    /// ## Parameters
    /// * `sound_key`: the key corresponding to the desired sound in the audio manager's `sounds` map.
    ///
    /// ## Returns
    /// * `Ok(None)` if the audio manager is muted: nothing is to be played.
    /// * `Ok(Some(path))` with the file of the sound that is to be played.
    /// * `DodgerError::InvalidSoundKey` with the key if no sound is registered under it.
    pub fn play_sound(&self, sound_key: String) -> (r: Result<Option<String>, DodgerError>)
        ensures
            self.is_muted ==> r == Ok::<Option<String>, DodgerError>(None),
            !self.is_muted && self.registry().contains_key(sound_key@) ==> (r matches Ok(
                Some(path),
            ) && path@ == self.registry()[sound_key@]),
            !self.is_muted && !self.registry().contains_key(sound_key@) ==> r == Err::<
                Option<String>,
                DodgerError,
            >(DodgerError::InvalidSoundKey(sound_key)),
    {
        if self.is_muted {
            return Ok(None);
        }
        match self.sounds.get(sound_key.as_str()) {
            Some(sound) => Ok(Some(sound.clone())),
            None => Err(DodgerError::InvalidSoundKey(sound_key)),
        }
    }

    /// **Toggles the mute state of the audio manager.**
    ///
    /// ## Behavior
    /// * If mute is active, no sound effects will play.
    /// * Changes `is_muted` to its opposite value.
    pub fn toggle_mute(&mut self)
        ensures
            final(self).is_muted == !old(self).is_muted,
            final(self).speaker_icon == old(self).speaker_icon,
            final(self).speaker_muted_icon == old(self).speaker_muted_icon,
            final(self).sounds == old(self).sounds,
    {
        self.is_muted = !self.is_muted;
    }
}

} // verus!
