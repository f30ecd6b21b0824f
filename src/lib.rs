//! A centred launcher bar: overlay placement, first-run configuration
//! bootstrap, and the scripts that carry styling and configuration into the
//! hosted web content.

mod bootstrap;
mod geometry;
mod injection;
mod input;
mod script;
mod shell;

pub use bootstrap::{
    asset_available, plan_asset, AssetPlan, ConfigBundle, BUNDLED_CONFIG_NAME,
    BUNDLED_INDEX_NAME, BUNDLED_STYLESHEET_NAME, DEFAULT_CONFIG_JSON, PROFILE_DIR_NAME,
    USER_CONFIG_NAME, USER_STYLESHEET_NAME,
};
pub use geometry::{plan, MonitorGeometry, OverlayPlacement, WindowSpec, WINDOW_HEIGHT, WINDOW_WIDTH};
pub use injection::{scripts_for_event, LoadEvent};
pub use input::{on_key_pressed, KeyResponse, ESCAPE_KEYVAL};
pub use script::{
    config_script, escape_js, stylesheet_script, CONFIG_SCRIPT_HEAD, CONFIG_SCRIPT_TAIL,
    STYLE_SCRIPT_HEAD, STYLE_SCRIPT_TAIL,
};
pub use shell::{
    contains_ascii_ignore_case, plan_placement, session_supports_overlay, OverlaySetup,
    WindowPlacement, OVERLAY_SESSION_WORD,
};
