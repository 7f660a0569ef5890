use vstd::prelude::*;
use vstd::string::StringExecFns;
use crate::errors::DodgerError;
use crate::levels::Level;

verus! {

/// The pictures that the game uses.
#[derive(Clone, Copy, PartialEq, Eq, Structural, Debug)]
pub enum ImageKind {
    Player,
    Background,
    MenuBackground,
    BadObject,
    GoodObjectHigh,
    GoodObjectMedium,
    GoodObjectLow,
    PauseButton,
    Speaker,
    SpeakerMuted,
}

impl ImageKind {
    /// The picture belongs to a level: every level has its own.
    pub open spec fn is_of_level(self) -> bool {
        match self {
            ImageKind::Player | ImageKind::Background | ImageKind::BadObject
            | ImageKind::GoodObjectHigh | ImageKind::GoodObjectMedium
            | ImageKind::GoodObjectLow => true,
            _ => false,
        }
    }

    /// The file of the picture: below the level's directory for a picture
    /// of a level, below the root of the resources for the others.
    pub open spec fn file_spec(self) -> Seq<char> {
        match self {
            ImageKind::Player => "player.png"@,
            ImageKind::Background => "background.png"@,
            ImageKind::BadObject => "bad_object.png"@,
            ImageKind::GoodObjectHigh => "/Good_Objects/high.png"@,
            ImageKind::GoodObjectMedium => "/Good_Objects/medium.png"@,
            ImageKind::GoodObjectLow => "/Good_Objects/low.png"@,
            ImageKind::MenuBackground => "/menu_background.png"@,
            ImageKind::PauseButton => "/pause_resume.png"@,
            ImageKind::Speaker => "/Sounds/speaker.png"@,
            ImageKind::SpeakerMuted => "/Sounds/speaker_muted.png"@,
        }
    }

    /// Returns the file of the picture.
    pub fn file(&self) -> (r: &'static str)
        ensures
            r@ == self.file_spec(),
    {
        match self {
            ImageKind::Player => "player.png",
            ImageKind::Background => "background.png",
            ImageKind::BadObject => "bad_object.png",
            ImageKind::GoodObjectHigh => "/Good_Objects/high.png",
            ImageKind::GoodObjectMedium => "/Good_Objects/medium.png",
            ImageKind::GoodObjectLow => "/Good_Objects/low.png",
            ImageKind::MenuBackground => "/menu_background.png",
            ImageKind::PauseButton => "/pause_resume.png",
            ImageKind::Speaker => "/Sounds/speaker.png",
            ImageKind::SpeakerMuted => "/Sounds/speaker_muted.png",
        }
    }

    /// Tells whether every level has its own picture of this kind.
    pub fn belongs_to_level(&self) -> (r: bool)
        ensures
            r == self.is_of_level(),
    {
        match self {
            ImageKind::Player | ImageKind::Background | ImageKind::BadObject
            | ImageKind::GoodObjectHigh | ImageKind::GoodObjectMedium
            | ImageKind::GoodObjectLow => true,
            _ => false,
        }
    }
}

/// The pictures that a level needs, in the order in which they are loaded.
pub open spec fn level_image_order() -> Seq<ImageKind> {
    seq![
        ImageKind::Player,
        ImageKind::BadObject,
        ImageKind::GoodObjectHigh,
        ImageKind::GoodObjectMedium,
        ImageKind::GoodObjectLow,
        ImageKind::Background,
        ImageKind::MenuBackground,
        ImageKind::PauseButton,
    ]
}

/// Returns the pictures that a level needs, in the order in which they are loaded.
pub fn level_image_kinds() -> (kinds: Vec<ImageKind>)
    ensures
        kinds@ == level_image_order(),
{
    let kinds = vec![
        ImageKind::Player,
        ImageKind::BadObject,
        ImageKind::GoodObjectHigh,
        ImageKind::GoodObjectMedium,
        ImageKind::GoodObjectLow,
        ImageKind::Background,
        ImageKind::MenuBackground,
        ImageKind::PauseButton,
    ];
    assert(kinds@ =~= level_image_order());
    kinds
}

/// What the game knows of a loaded picture: which one it is, and its width
/// and height in pixels.
#[derive(Clone, Copy, PartialEq, Eq, Structural, Debug)]
pub struct Image {
    pub kind: ImageKind,
    pub width: u32,
    pub height: u32,
}

/// The pictures of one level, as the resource loader hands them over.
#[derive(Clone, Copy, Debug)]
pub struct LevelImages {
    pub player_image: Image,
    pub background_image: Image,
    pub menu_background_image: Image,
    pub bad_object_image: Image,
    pub good_object_high_image: Image,
    pub good_object_medium_image: Image,
    pub good_object_low_image: Image,
    pub pause_button_image: Image,
}

/// Structure for managing and storing game resources such as images and levels.
#[derive(Clone, Copy, Debug)]
pub struct Resources {
    pub player_image: Image,
    pub background_image: Image,
    pub menu_background_image: Image,
    pub bad_object_image: Image,
    pub good_object_high_image: Image,
    pub good_object_medium_image: Image,
    pub good_object_low_image: Image,
    pub pause_button_image: Image,
    pub level: Level,
}

impl Resources {
    /// The path of a picture of a level: the level's directory, a slash and
    /// the picture's file.
    pub open spec fn formatted_path(template: Seq<char>, image_type: Seq<char>) -> Seq<char> {
        template + "/"@ + image_type
    }

    /// **Constructs a formatted image path based on a template and image type.**
    ///
    /// ## Parameters
    /// * `template`: a string representing folder for the images.
    /// * `image_type`: a string identifying the type of image (e.g., "player.png").
    ///
    /// ## Returns
    /// A formatted string combining the template and the image type.
    pub fn formatted_image_path(template: &str, image_type: &str) -> (r: String)
        ensures
            r@ == Self::formatted_path(template@, image_type@),
    {
        let mut path = String::from_str(template);
        path.append("/");
        path.append(image_type);
        path
    }

    /// The path from which a picture is loaded for a level.
    pub open spec fn image_path_spec(level: Level, kind: ImageKind) -> Seq<char> {
        if kind.is_of_level() {
            Self::formatted_path(level.image_template@, kind.file_spec())
        } else {
            kind.file_spec()
        }
    }

    /// Returns the path from which a picture is loaded for a level.
    pub fn image_path(level: &Level, kind: ImageKind) -> (r: String)
        ensures
            r@ == Self::image_path_spec(*level, kind),
    {
        if kind.belongs_to_level() {
            Self::formatted_image_path(level.image_template, kind.file())
        } else {
            String::from_str(kind.file())
        }
    }

    /// The resources of a level: its pictures and its entry in the level table.
    pub open spec fn of_level(level: Level, images: LevelImages) -> Resources {
        Resources {
            player_image: images.player_image,
            background_image: images.background_image,
            menu_background_image: images.menu_background_image,
            bad_object_image: images.bad_object_image,
            good_object_high_image: images.good_object_high_image,
            good_object_medium_image: images.good_object_medium_image,
            good_object_low_image: images.good_object_low_image,
            pause_button_image: images.pause_button_image,
            level,
        }
    }

    /// **Puts together all resources for a specific game level.**
    ///
    /// ## Parameters
    /// * `index`: index of the level (0-based).
    /// * `levels`: list of available levels.
    /// * `images`: the level's loaded pictures.
    ///
    /// ## Returns
    /// The level's `Resources`, or `DodgerError::Unexpected` if the list has no
    /// level of that index.
    pub fn load_level(index: usize, levels: &[Level], images: &LevelImages) -> (r: Result<
        Self,
        DodgerError,
    >)
        ensures
            index < levels@.len() ==> r == Ok::<Resources, DodgerError>(
                Resources::of_level(levels@[index as int], *images),
            ),
            index >= levels@.len() ==> r == Err::<Resources, DodgerError>(DodgerError::Unexpected),
    {
        if index >= levels.len() {
            return Err(DodgerError::Unexpected);
        }
        let level = levels[index];
        Ok(
            Resources {
                player_image: images.player_image,
                background_image: images.background_image,
                menu_background_image: images.menu_background_image,
                bad_object_image: images.bad_object_image,
                good_object_high_image: images.good_object_high_image,
                good_object_medium_image: images.good_object_medium_image,
                good_object_low_image: images.good_object_low_image,
                pause_button_image: images.pause_button_image,
                level,
            },
        )
    }
}

} // verus!
