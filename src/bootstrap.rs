use vstd::prelude::*;

verus! {

/// Directory under the user's configuration root that holds the user copies.
pub const PROFILE_DIR_NAME: &'static str = "aether-launcher";

/// File name of the user stylesheet inside the profile directory.
pub const USER_STYLESHEET_NAME: &'static str = "style.css";

/// File name of the user configuration inside the profile directory.
pub const USER_CONFIG_NAME: &'static str = "config.json";

/// Bundled entry document, inside the assets directory.
pub const BUNDLED_INDEX_NAME: &'static str = "index.html";

/// Bundled default stylesheet, inside the assets directory.
pub const BUNDLED_STYLESHEET_NAME: &'static str = "styles.css";

/// Bundled default configuration, inside the assets directory.
pub const BUNDLED_CONFIG_NAME: &'static str = "config.json";

/// Configuration handed to the content when the user copy cannot be read.
pub const DEFAULT_CONFIG_JSON: &'static str = "{}";

/// What bootstrap does with one asset (the stylesheet or the configuration).
pub enum AssetPlan {
    /// The user copy exists: it is left untouched.
    KeepUserCopy,
    /// The user copy is absent: the profile directory is created and this
    /// bundled default content is written as the user copy.
    WriteDefault(String),
    /// The user copy is absent and the bundled default could not be read.
    Unavailable,
}

/// The content bootstrap writes, given whether the user copy exists and the
/// bundled default (`None` when it could not be read).
pub open spec fn planned_write(user_copy_exists: bool, bundled: Option<Seq<char>>) -> Option<
    Seq<char>,
> {
    if user_copy_exists {
        None
    } else {
        bundled
    }
}

/// Whether the asset is present for the content after bootstrap.
pub open spec fn available_after(
    user_copy_exists: bool,
    bundled: Option<Seq<char>>,
    write_ok: bool,
) -> bool {
    user_copy_exists || (planned_write(user_copy_exists, bundled) is Some && write_ok)
}

/// The user copy after one bootstrap run (`None` while it does not exist).
pub open spec fn user_copy_after(
    user_copy: Option<Seq<char>>,
    bundled: Option<Seq<char>>,
    write_ok: bool,
) -> Option<Seq<char>> {
    match planned_write(user_copy is Some, bundled) {
        Some(d) => if write_ok {
            Some(d)
        } else {
            user_copy
        },
        None => user_copy,
    }
}

/// Decides what bootstrap does with one asset.
pub fn plan_asset(user_copy_exists: bool, bundled: Option<String>) -> (r: AssetPlan)
    ensures
        r is KeepUserCopy <==> user_copy_exists,
        r is Unavailable <==> (!user_copy_exists && bundled is None),
        r is WriteDefault <==> planned_write(user_copy_exists, bundled.deep_view()) is Some,
        r is WriteDefault ==> planned_write(user_copy_exists, bundled.deep_view()) == Some(
            r->WriteDefault_0@,
        ),
{
    if user_copy_exists {
        AssetPlan::KeepUserCopy
    } else {
        match bundled {
            Some(content) => AssetPlan::WriteDefault(content),
            None => AssetPlan::Unavailable,
        }
    }
}

/// Whether the asset is present after carrying out `plan`, where `write_ok`
/// says whether the write of a default went through.
pub fn asset_available(plan: &AssetPlan, write_ok: bool) -> (r: bool)
    ensures
        r == (plan is KeepUserCopy || (plan is WriteDefault && write_ok)),
{
    match plan {
        AssetPlan::KeepUserCopy => true,
        AssetPlan::WriteDefault(_) => write_ok,
        AssetPlan::Unavailable => false,
    }
}

/// Running bootstrap a second time, after a first run whose writes went
/// through, writes nothing and leaves the user copy as the first run left it.
pub proof fn lemma_bootstrap_idempotent(
    user_copy: Option<Seq<char>>,
    bundled: Option<Seq<char>>,
    first_write_ok: bool,
    second_write_ok: bool,
)
    requires
        planned_write(user_copy is Some, bundled) is Some ==> first_write_ok,
    ensures
        ({
            let after_first = user_copy_after(user_copy, bundled, first_write_ok);
            &&& planned_write(after_first is Some, bundled) is None
            &&& user_copy_after(after_first, bundled, second_write_ok) == after_first
        }),
{
}

/// Bootstrap never changes a user copy that already exists.
pub proof fn lemma_user_copy_kept(content: Seq<char>, bundled: Option<Seq<char>>, write_ok: bool)
    ensures
        planned_write(true, bundled) is None,
        user_copy_after(Some(content), bundled, write_ok) == Some(content),
        available_after(true, bundled, write_ok),
{
}

/// The configuration text handed to the content: the user copy when it
/// could be read, else the empty object.
pub open spec fn config_text(user_config: Option<Seq<char>>) -> Seq<char> {
    match user_config {
        Some(c) => c,
        None => DEFAULT_CONFIG_JSON@,
    }
}

/// What the injection pipeline reads from bootstrap.
pub struct ConfigBundle {
    /// File URI of the user stylesheet.
    pub stylesheet_uri: String,
    /// Whether the user stylesheet exists after bootstrap.
    pub stylesheet_exists: bool,
    /// Raw configuration JSON text.
    pub config_json: String,
}

impl ConfigBundle {
    /// Assembles the bundle; `user_config` is the user configuration as read
    /// after bootstrap, `None` when it could not be read.
    pub fn new(stylesheet_uri: String, stylesheet_exists: bool, user_config: Option<String>) -> (r:
        ConfigBundle)
        ensures
            r.stylesheet_uri@ == stylesheet_uri@,
            r.stylesheet_exists == stylesheet_exists,
            r.config_json@ == config_text(user_config.deep_view()),
    {
        let config_json = match user_config {
            Some(c) => c,
            None => String::from_str(DEFAULT_CONFIG_JSON),
        };
        ConfigBundle { stylesheet_uri, stylesheet_exists, config_json }
    }
}

} // verus!
