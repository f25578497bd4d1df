use concord_core::config::{
    config_dir, config_path, load_display_options, save_display_options, ConfigFileRead,
    DisplayOptions, ImagePreviewQualityPreset, PRIVATE_DIR_MODE, PRIVATE_FILE_MODE,
};
use concord_core::error::AppError;

#[test]
fn display_options_default_to_all_media_enabled() {
    let options = DisplayOptions::default();

    assert!(options.avatars_visible());
    assert!(options.images_visible());
    assert!(options.custom_emoji_visible());
    assert_eq!(
        options.image_preview_quality,
        ImagePreviewQualityPreset::Balanced
    );
}

#[test]
fn global_disable_overrides_individual_toggles() {
    let options = DisplayOptions {
        disable_image_preview: true,
        show_avatars: true,
        show_images: true,
        image_preview_quality: ImagePreviewQualityPreset::Balanced,
        show_custom_emoji: true,
        desktop_notifications: true,
    };

    assert!(!options.avatars_visible());
    assert!(!options.images_visible());
    assert!(!options.custom_emoji_visible());
}

#[test]
fn individual_toggles_apply_when_previews_are_enabled() {
    let options = DisplayOptions {
        disable_image_preview: false,
        show_avatars: false,
        show_images: true,
        image_preview_quality: ImagePreviewQualityPreset::High,
        show_custom_emoji: false,
        desktop_notifications: true,
    };

    assert!(!options.avatars_visible());
    assert!(options.images_visible());
    assert!(!options.custom_emoji_visible());
}

#[test]
fn image_preview_quality_cycles_through_all_presets() {
    let start = ImagePreviewQualityPreset::Efficient;
    let second = start.next();
    let third = second.next();
    let fourth = third.next();

    assert_eq!(second, ImagePreviewQualityPreset::Balanced);
    assert_eq!(third, ImagePreviewQualityPreset::High);
    assert_eq!(fourth, ImagePreviewQualityPreset::Original);
    assert_eq!(fourth.next(), start);
}

#[test]
fn image_preview_quality_labels_are_distinct() {
    let labels = [
        ImagePreviewQualityPreset::Efficient.label(),
        ImagePreviewQualityPreset::Balanced.label(),
        ImagePreviewQualityPreset::High.label(),
        ImagePreviewQualityPreset::Original.label(),
    ];
    assert_eq!(labels[1], "balanced");
    for i in 0..labels.len() {
        for j in 0..labels.len() {
            if i != j {
                assert_ne!(labels[i], labels[j]);
            }
        }
    }
}

#[test]
fn config_paths_live_under_home() {
    let dir = config_dir(Some("/home/neo")).expect("home is set");
    let path = config_path(Some("/home/neo/")).expect("home is set");

    assert_eq!(dir, "/home/neo/.concord");
    assert_eq!(path, "/home/neo/.concord/config.toml");
}

#[test]
fn config_paths_need_a_home() {
    assert!(matches!(config_dir(None), Err(AppError::MissingHome)));
    assert!(matches!(config_path(None), Err(AppError::MissingHome)));
}

#[test]
fn config_read_failures_are_reported() {
    assert!(matches!(
        load_display_options(ConfigFileRead::ReadFailed("denied".to_owned())),
        Err(AppError::ConfigIo(message)) if message == "denied"
    ));
    assert!(matches!(
        load_display_options(ConfigFileRead::ParseFailed("bad toml".to_owned())),
        Err(AppError::ConfigParse(message)) if message == "bad toml"
    ));
}

#[test]
fn decoded_config_is_used_as_is() {
    let options = DisplayOptions {
        disable_image_preview: true,
        show_avatars: false,
        show_images: false,
        image_preview_quality: ImagePreviewQualityPreset::Original,
        show_custom_emoji: false,
        desktop_notifications: false,
    };
    let loaded = load_display_options(ConfigFileRead::Decoded(options)).expect("decoded");
    assert_eq!(loaded, options);
}

#[test]
fn missing_config_file_gives_default_options() {
    let options = load_display_options(ConfigFileRead::NotFound).expect("missing file is fine");
    assert_eq!(options, DisplayOptions::default());
}

#[test]
fn private_file_modes_keep_others_out() {
    assert_eq!(PRIVATE_DIR_MODE, 0o700);
    assert_eq!(PRIVATE_FILE_MODE, 0o600);
}

#[test]
fn save_plan_targets_config_file() {
    let options = DisplayOptions::default();
    let plan = save_display_options(&options, Some("/home/neo")).expect("home is set");
    assert_eq!(plan.dir_path, "/home/neo/.concord");
    assert_eq!(plan.file_path, "/home/neo/.concord/config.toml");
    assert_eq!(plan.dir_mode, PRIVATE_DIR_MODE);
    assert_eq!(plan.file_mode, PRIVATE_FILE_MODE);
    assert_eq!(plan.options, options);
}
