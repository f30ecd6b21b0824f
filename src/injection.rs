use vstd::prelude::*;
use crate::bootstrap::{available_after, config_text, ConfigBundle, DEFAULT_CONFIG_JSON};
use crate::script::{
    config_script, escaped, stylesheet_script, CONFIG_SCRIPT_HEAD, CONFIG_SCRIPT_TAIL,
    STYLE_SCRIPT_HEAD, STYLE_SCRIPT_TAIL,
};

verus! {

/// A milestone of the hosted document's navigation.
#[derive(Clone, Copy, Debug, PartialEq, Eq, Structural)]
pub enum LoadEvent {
    Started,
    Redirected,
    Committed,
    Finished,
}

/// The events on which styling and configuration are (re)applied.
pub open spec fn injects_on(event: LoadEvent) -> bool {
    event is Committed || event is Finished
}

/// Text of the script that links the stylesheet at `uri`.
pub open spec fn style_script_text(uri: Seq<char>) -> Seq<char> {
    STYLE_SCRIPT_HEAD@ + escaped(uri) + STYLE_SCRIPT_TAIL@
}

/// Text of the script that publishes the configuration `json`.
pub open spec fn config_script_text(json: Seq<char>) -> Seq<char> {
    CONFIG_SCRIPT_HEAD@ + escaped(json) + CONFIG_SCRIPT_TAIL@
}

/// The scripts to evaluate on `event`, in dispatch order.
pub open spec fn injection_scripts(
    event: LoadEvent,
    stylesheet_exists: bool,
    uri: Seq<char>,
    json: Seq<char>,
) -> Seq<Seq<char>> {
    if !injects_on(event) {
        Seq::empty()
    } else if stylesheet_exists {
        seq![style_script_text(uri), config_script_text(json)]
    } else {
        seq![config_script_text(json)]
    }
}

impl LoadEvent {
    /// Whether styling and configuration are applied on this event.
    pub fn injects(&self) -> (r: bool)
        ensures
            r == injects_on(*self),
    {
        match self {
            LoadEvent::Committed | LoadEvent::Finished => true,
            _ => false,
        }
    }
}

/// The scripts to evaluate against the hosted document on `event`, in the
/// order they must be dispatched; empty on events that inject nothing.
pub fn scripts_for_event(event: LoadEvent, bundle: &ConfigBundle) -> (r: Vec<String>)
    ensures
        r@.map_values(|s: String| s@) == injection_scripts(
            event,
            bundle.stylesheet_exists,
            bundle.stylesheet_uri@,
            bundle.config_json@,
        ),
{
    let mut scripts: Vec<String> = Vec::new();
    if event.injects() {
        if bundle.stylesheet_exists {
            scripts.push(stylesheet_script(bundle.stylesheet_uri.as_str()));
        }
        scripts.push(config_script(bundle.config_json.as_str()));
    }
    assert(scripts@.map_values(|s: String| s@) =~= injection_scripts(
        event,
        bundle.stylesheet_exists,
        bundle.stylesheet_uri@,
        bundle.config_json@,
    ));
    scripts
}

/// On every event that injects, the stylesheet script (when there is one)
/// is dispatched first and the configuration script last; other events
/// dispatch nothing.
pub proof fn lemma_stylesheet_before_config(
    event: LoadEvent,
    stylesheet_exists: bool,
    uri: Seq<char>,
    json: Seq<char>,
)
    ensures
        ({
            let s = injection_scripts(event, stylesheet_exists, uri, json);
            &&& injects_on(event) ==> s.len() > 0 && s.last() == config_script_text(json)
            &&& injects_on(event) && stylesheet_exists ==> s == seq![
                style_script_text(uri),
                config_script_text(json),
            ]
            &&& !injects_on(event) ==> s.len() == 0
        }),
{
}

/// When the bundled stylesheet cannot be read and there is no user copy,
/// no stylesheet script is ever dispatched, and the configuration script is
/// still dispatched, carrying the empty object when the user configuration
/// cannot be read either.
pub proof fn lemma_unreadable_stylesheet(
    event: LoadEvent,
    write_ok: bool,
    uri: Seq<char>,
    user_config: Option<Seq<char>>,
)
    ensures
        !available_after(false, None, write_ok),
        injects_on(event) ==> injection_scripts(
            event,
            available_after(false, None, write_ok),
            uri,
            config_text(user_config),
        ) == seq![config_script_text(config_text(user_config))],
        user_config is None ==> config_text(user_config) == DEFAULT_CONFIG_JSON@,
{
}

} // verus!
