//! The filter's state, the settings a user submits, and how one replaces the
//! other.
use vstd::prelude::*;
use vstd::string::*;
use crate::json::{
    data_entries, data_items, json_text, lemma_array_view, lemma_object_view, JsonData, JsonValue,
};
use crate::text::views;

verus! {

/// What the filter keeps between requests.
#[derive(Debug)]
pub struct State {
    pub rules: Vec<String>,
    pub is_on: bool,
    pub openai_key: Option<String>,
}

/// What a user submits from the extension.
#[derive(Debug)]
pub struct Settings {
    pub rules: Vec<String>,
    pub is_on: bool,
    pub api_key: String,
}

/// The rules a new filter starts with.
pub open spec fn initial_rules() -> Seq<Seq<char>> {
    seq!["This is a test 1"@, "This is a test 2"@, "This is a test 3"@]
}

/// The state after `settings` are submitted: the submitted rules and switch,
/// and the submitted key as the model key.
pub open spec fn applied(state: State, settings: Settings) -> State {
    State { rules: settings.rules, is_on: settings.is_on, openai_key: Some(settings.api_key) }
}

impl State {
    /// A filter that is on, with three placeholder rules and no model key.
    pub fn new() -> (r: State)
        ensures
            views(r.rules@) == initial_rules(),
            r.is_on,
            r.openai_key is None,
    {
        let mut rules: Vec<String> = Vec::new();
        rules.push(String::from_str("This is a test 1"));
        rules.push(String::from_str("This is a test 2"));
        rules.push(String::from_str("This is a test 3"));
        assert(views(rules@) =~= initial_rules());
        State { rules, is_on: true, openai_key: None }
    }

    /// Replaces the rules, the switch and the model key with the submitted
    /// ones, and gives back the key for the model client.
    pub fn apply_settings(&mut self, settings: Settings) -> (api_key: String)
        ensures
            *final(self) == applied(*old(self), settings),
            api_key == settings.api_key,
    {
        let key = settings.api_key.clone();
        self.rules = settings.rules;
        self.is_on = settings.is_on;
        self.openai_key = Some(settings.api_key);
        key
    }
}

/// The settings document `{"rules": [...], "is_on": ...}` of the given rules
/// and switch. The entries are listed here as the document holds them; the
/// written text lists the keys in sorted order.
pub open spec fn settings_data(rules: Seq<Seq<char>>, is_on: bool) -> JsonData {
    JsonData::Object(
        seq![
            ("rules"@, JsonData::Array(rules.map_values(|r: Seq<char>| JsonData::String(r)))),
            ("is_on"@, JsonData::Bool(is_on)),
        ],
    )
}

/// The body of the answer to a request for the settings of `state`: the JSON
/// text of its rules and switch. The model key is not part of it.
pub open spec fn settings_text(state: State) -> Seq<char> {
    json_text(settings_data(views(state.rules@), state.is_on))
}

/// The document that answers a request for the settings: the rules and the
/// switch of `state`; the model key stays out.
pub fn settings_json(state: &State) -> (r: JsonValue)
    ensures
        r@ == settings_data(views(state.rules@), state.is_on),
{
    let mut items: Vec<JsonValue> = Vec::new();
    let n = state.rules.len();
    let mut i: usize = 0;
    while i < n
        invariant
            n == state.rules@.len(),
            i <= n,
            items@.len() == i,
            forall|k: int| 0 <= k < i ==> (#[trigger] items@[k])@ == JsonData::String(state.rules@[k]@),
        decreases n - i,
    {
        items.push(JsonValue::String(state.rules[i].clone()));
        i = i + 1;
    }
    let rules_name = String::from_str("rules");
    let switch_name = String::from_str("is_on");
    proof {
        lemma_array_view(items);
        assert(data_items(items@) =~= views(state.rules@).map_values(
            |r: Seq<char>| JsonData::String(r),
        ));
    }
    let array = JsonValue::Array(items);
    let mut entries: Vec<(String, JsonValue)> = Vec::new();
    entries.push((rules_name, array));
    entries.push((switch_name, JsonValue::Bool(state.is_on)));
    proof {
        lemma_object_view(entries);
        assert(data_entries(entries@) =~= settings_data(views(state.rules@), state.is_on)->Object_0);
    }
    JsonValue::Object(entries)
}

/// The settings document holds two entries: `rules`, an array with every
/// rule as a string, in order, and `is_on`, the switch.
pub proof fn lemma_settings_list_every_rule(rules: Seq<Seq<char>>, is_on: bool)
    ensures
        settings_data(rules, is_on) is Object,
        settings_data(rules, is_on)->Object_0.len() == 2,
        settings_data(rules, is_on)->Object_0[0].0 == "rules"@,
        settings_data(rules, is_on)->Object_0[0].1 is Array,
        settings_data(rules, is_on)->Object_0[0].1->Array_0.len() == rules.len(),
        forall|i: int|
            0 <= i < rules.len() ==> #[trigger] settings_data(rules, is_on)->Object_0[0].1->Array_0[i]
                == JsonData::String(rules[i]),
        settings_data(rules, is_on)->Object_0[1] == ("is_on"@, JsonData::Bool(is_on)),
{
}

/// Settings read back after a submission are the submitted ones: the answer
/// to a request for the settings, after `settings` were applied, is the text
/// of the submitted rules and switch, whatever the state was before.
pub proof fn lemma_fetch_after_submit(state: State, settings: Settings)
    ensures
        settings_text(applied(state, settings)) == json_text(
            settings_data(views(settings.rules@), settings.is_on),
        ),
{
}

/// The settings answer depends on the rules and the switch alone: two states
/// that agree on them, whatever their model keys, give the same text, so the
/// key never shows in it.
pub proof fn lemma_settings_text_ignores_key(a: State, b: State)
    requires
        views(a.rules@) == views(b.rules@),
        a.is_on == b.is_on,
    ensures
        settings_text(a) == settings_text(b),
{
}

/// After a submission the state holds the submitted rules and switch, and
/// the submitted key as its model key.
pub proof fn lemma_submission_is_stored(state: State, settings: Settings)
    ensures
        applied(state, settings).rules == settings.rules,
        applied(state, settings).is_on == settings.is_on,
        applied(state, settings).openai_key == Some(settings.api_key),
{
}

/// A submission replaces every setting: the state after two submissions is
/// the state after the second alone, whatever came before.
pub proof fn lemma_last_submission_wins(state: State, first: Settings, second: Settings)
    ensures
        applied(applied(state, first), second) == applied(state, second),
{
}

} // verus!
