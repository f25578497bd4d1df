use vstd::prelude::*;

use crate::error::AppError;
use crate::text::{join_path, join_path_spec};

verus! {

/// Name of the directory under `$HOME` that holds the configuration.
pub const CONFIG_DIR: &'static str = ".concord";
/// Name of the configuration file inside [`CONFIG_DIR`].
pub const CONFIG_FILE: &'static str = "config.toml";
/// Permission bits of the configuration directory: owner only.
pub const PRIVATE_DIR_MODE: u32 = 0o700;
/// Permission bits of the configuration file: owner read and write only.
pub const PRIVATE_FILE_MODE: u32 = 0o600;

/// How large image previews are fetched and drawn.
#[derive(Clone, Copy, Debug, PartialEq, Eq, Structural)]
pub enum ImagePreviewQualityPreset {
    Efficient,
    Balanced,
    High,
    Original,
}

impl ImagePreviewQualityPreset {
    /// The preset's label as it is written in `config.toml`.
    pub open spec fn label_spec(self) -> Seq<char> {
        match self {
            ImagePreviewQualityPreset::Efficient => "efficient"@,
            ImagePreviewQualityPreset::Balanced => "balanced"@,
            ImagePreviewQualityPreset::High => "high"@,
            ImagePreviewQualityPreset::Original => "original"@,
        }
    }

    /// The preset that follows this one when the user cycles through them.
    pub open spec fn next_spec(self) -> ImagePreviewQualityPreset {
        match self {
            ImagePreviewQualityPreset::Efficient => ImagePreviewQualityPreset::Balanced,
            ImagePreviewQualityPreset::Balanced => ImagePreviewQualityPreset::High,
            ImagePreviewQualityPreset::High => ImagePreviewQualityPreset::Original,
            ImagePreviewQualityPreset::Original => ImagePreviewQualityPreset::Efficient,
        }
    }

    pub fn label(self) -> (label: &'static str)
        ensures
            label@ == self.label_spec(),
    {
        proof {
            reveal_strlit("efficient");
            reveal_strlit("balanced");
            reveal_strlit("high");
            reveal_strlit("original");
        }
        match self {
            ImagePreviewQualityPreset::Efficient => "efficient",
            ImagePreviewQualityPreset::Balanced => "balanced",
            ImagePreviewQualityPreset::High => "high",
            ImagePreviewQualityPreset::Original => "original",
        }
    }

    pub fn next(self) -> (next: Self)
        ensures
            next == self.next_spec(),
    {
        match self {
            ImagePreviewQualityPreset::Efficient => ImagePreviewQualityPreset::Balanced,
            ImagePreviewQualityPreset::Balanced => ImagePreviewQualityPreset::High,
            ImagePreviewQualityPreset::High => ImagePreviewQualityPreset::Original,
            ImagePreviewQualityPreset::Original => ImagePreviewQualityPreset::Efficient,
        }
    }
}

impl Default for ImagePreviewQualityPreset {
    fn default() -> (preset: Self)
        ensures
            preset == ImagePreviewQualityPreset::Balanced,
    {
        ImagePreviewQualityPreset::Balanced
    }
}

/// Cycling through the presets visits each of them and comes back after four steps.
pub proof fn lemma_preset_cycle_returns_after_four(p: ImagePreviewQualityPreset)
    ensures
        p.next_spec().next_spec().next_spec().next_spec() == p,
        p.next_spec() != p,
        p.next_spec().next_spec() != p,
        p.next_spec().next_spec().next_spec() != p,
{
}

/// Distinct presets have distinct labels, so a label names one preset.
pub proof fn lemma_preset_labels_distinct(p: ImagePreviewQualityPreset, q: ImagePreviewQualityPreset)
    requires
        p != q,
    ensures
        p.label_spec() != q.label_spec(),
{
    reveal_strlit("efficient");
    reveal_strlit("balanced");
    reveal_strlit("high");
    reveal_strlit("original");
    if p.label_spec() == q.label_spec() {
        assert(p.label_spec().len() == q.label_spec().len());
        assert(p.label_spec()[0] == q.label_spec()[0]);
    }
}

/// What the user chose about media and notifications.
#[derive(Clone, Copy, Debug, PartialEq, Eq, Structural)]
pub struct DisplayOptions {
    pub disable_image_preview: bool,
    pub show_avatars: bool,
    pub show_images: bool,
    pub image_preview_quality: ImagePreviewQualityPreset,
    pub show_custom_emoji: bool,
    pub desktop_notifications: bool,
}

impl DisplayOptions {
    /// The options a fresh installation starts with: every kind of media shown.
    pub open spec fn default_spec() -> DisplayOptions {
        DisplayOptions {
            disable_image_preview: false,
            show_avatars: true,
            show_images: true,
            image_preview_quality: ImagePreviewQualityPreset::Balanced,
            show_custom_emoji: true,
            desktop_notifications: true,
        }
    }

    pub open spec fn avatars_visible_spec(self) -> bool {
        !self.disable_image_preview && self.show_avatars
    }

    pub open spec fn images_visible_spec(self) -> bool {
        !self.disable_image_preview && self.show_images
    }

    pub open spec fn custom_emoji_visible_spec(self) -> bool {
        !self.disable_image_preview && self.show_custom_emoji
    }

    pub fn avatars_visible(self) -> (visible: bool)
        ensures
            visible == self.avatars_visible_spec(),
    {
        !self.disable_image_preview && self.show_avatars
    }

    pub fn images_visible(self) -> (visible: bool)
        ensures
            visible == self.images_visible_spec(),
    {
        !self.disable_image_preview && self.show_images
    }

    pub fn custom_emoji_visible(self) -> (visible: bool)
        ensures
            visible == self.custom_emoji_visible_spec(),
    {
        !self.disable_image_preview && self.show_custom_emoji
    }
}

impl Default for DisplayOptions {
    fn default() -> (options: Self)
        ensures
            options == DisplayOptions::default_spec(),
    {
        DisplayOptions {
            disable_image_preview: false,
            show_avatars: true,
            show_images: true,
            image_preview_quality: ImagePreviewQualityPreset::Balanced,
            show_custom_emoji: true,
            desktop_notifications: true,
        }
    }
}

/// The master switch hides every image, whatever the individual toggles say.
pub proof fn lemma_master_switch_hides_all_media(options: DisplayOptions)
    requires
        options.disable_image_preview,
    ensures
        !options.avatars_visible_spec(),
        !options.images_visible_spec(),
        !options.custom_emoji_visible_spec(),
{
}

/// With the master switch off, each kind of media follows its own toggle.
pub proof fn lemma_toggles_decide_without_master_switch(options: DisplayOptions)
    requires
        !options.disable_image_preview,
    ensures
        options.avatars_visible_spec() == options.show_avatars,
        options.images_visible_spec() == options.show_images,
        options.custom_emoji_visible_spec() == options.show_custom_emoji,
{
}

/// The directory `$HOME/.concord`.
pub open spec fn config_dir_spec(home: Seq<char>) -> Seq<char> {
    join_path_spec(home, CONFIG_DIR@)
}

/// The file `$HOME/.concord/config.toml`.
pub open spec fn config_path_spec(home: Seq<char>) -> Seq<char> {
    join_path_spec(config_dir_spec(home), CONFIG_FILE@)
}

/// The configuration directory under the given home directory; an error when `HOME` is unset.
pub fn config_dir(home: Option<&str>) -> (dir: Result<String, AppError>)
    ensures
        home is None ==> dir matches Err(AppError::MissingHome),
        home matches Some(h) ==> dir matches Ok(d) && d@ == config_dir_spec(h@),
{
    match home {
        None => Err(AppError::MissingHome),
        Some(h) => Ok(join_path(h, CONFIG_DIR)),
    }
}

/// The configuration file under the given home directory; an error when `HOME` is unset.
pub fn config_path(home: Option<&str>) -> (path: Result<String, AppError>)
    ensures
        home is None ==> path matches Err(AppError::MissingHome),
        home matches Some(h) ==> path matches Ok(p) && p@ == config_path_spec(h@),
{
    match home {
        None => Err(AppError::MissingHome),
        Some(h) => {
            let dir = join_path(h, CONFIG_DIR);
            Ok(join_path(dir.as_str(), CONFIG_FILE))
        },
    }
}

/// What reading and decoding the configuration file produced.
pub enum ConfigFileRead {
    /// The file does not exist.
    NotFound,
    /// Reading the file failed for another reason.
    ReadFailed(String),
    /// The file was read but is not a valid configuration.
    ParseFailed(String),
    /// The file was read and decoded; these are its display options, with defaults
    /// for the keys it leaves out.
    Decoded(DisplayOptions),
}

/// Decides the display options from the outcome of reading `config.toml`: a missing file
/// means the defaults, a decoded file its options, and any failure is reported.
pub fn load_display_options(read: ConfigFileRead) -> (options: Result<DisplayOptions, AppError>)
    ensures
        read is NotFound ==> options == Ok::<DisplayOptions, AppError>(DisplayOptions::default_spec()),
        read matches ConfigFileRead::Decoded(o) ==> options == Ok::<DisplayOptions, AppError>(o),
        read matches ConfigFileRead::ReadFailed(m) ==> options matches Err(AppError::ConfigIo(e)) && e == m,
        read matches ConfigFileRead::ParseFailed(m) ==> options matches Err(AppError::ConfigParse(e)) && e == m,
{
    match read {
        ConfigFileRead::NotFound => Ok(DisplayOptions::default()),
        ConfigFileRead::ReadFailed(message) => Err(AppError::ConfigIo(message)),
        ConfigFileRead::ParseFailed(message) => Err(AppError::ConfigParse(message)),
        ConfigFileRead::Decoded(options) => Ok(options),
    }
}

/// Where and how the display options are written: the directory to create and make
/// private, the file to write and make private, and the options that go into it.
pub struct ConfigSavePlan {
    pub dir_path: String,
    pub dir_mode: u32,
    pub file_path: String,
    pub file_mode: u32,
    pub options: DisplayOptions,
}

/// Plans saving the display options under the given home directory: the file goes to
/// `$HOME/.concord/config.toml`, the directory is made owner-only (0700) and the file
/// owner read-write only (0600).
pub fn save_display_options(options: &DisplayOptions, home: Option<&str>) -> (plan: Result<
    ConfigSavePlan,
    AppError,
>)
    ensures
        home is None ==> plan matches Err(AppError::MissingHome),
        home matches Some(h) ==> plan matches Ok(p) && p.dir_path@ == config_dir_spec(h@)
            && p.file_path@ == config_path_spec(h@) && p.dir_mode == PRIVATE_DIR_MODE
            && p.file_mode == PRIVATE_FILE_MODE && p.options == *options,
{
    match home {
        None => Err(AppError::MissingHome),
        Some(h) => {
            let dir_path = join_path(h, CONFIG_DIR);
            let file_path = join_path(dir_path.as_str(), CONFIG_FILE);
            Ok(
                ConfigSavePlan {
                    dir_path,
                    dir_mode: PRIVATE_DIR_MODE,
                    file_path,
                    file_mode: PRIVATE_FILE_MODE,
                    options: *options,
                },
            )
        },
    }
}

} // verus!
