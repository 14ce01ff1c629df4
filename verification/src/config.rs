//! The options the component is started with.

use crate::program::{names_of, opt_text, ClassifierView, ProgramClassifier};
use crate::text::same_text;
use vstd::prelude::*;

verus! {

/// The option that lists the programs that want `Locked` mode, separated by
/// commas.
pub open spec fn locked_programs_key() -> Seq<char> {
    "locked_mode_programs"@
}

/// The option that says whether the component goes out of sight once it is
/// set up.
pub open spec fn hide_key() -> Seq<char> {
    "hide"@
}

/// The value that switches an option on.
pub open spec fn on_value() -> Seq<char> {
    "true"@
}

/// The options as plain values: pairs of key and value.
pub open spec fn options_view(options: Seq<(String, String)>) -> Seq<(Seq<char>, Seq<char>)> {
    options.map_values(|o: (String, String)| (o.0@, o.1@))
}

/// The first index at or after `from` of a pair whose key is `key`, or
/// `options.len()` where there is none.
pub open spec fn first_with_key(
    options: Seq<(Seq<char>, Seq<char>)>,
    key: Seq<char>,
    from: int,
) -> int
    decreases options.len() - from,
{
    if 0 <= from < options.len() && options[from].0 != key {
        first_with_key(options, key, from + 1)
    } else {
        from
    }
}

/// The value of the option `key`: that of the first pair with that key.
pub open spec fn option_value(options: Seq<(Seq<char>, Seq<char>)>, key: Seq<char>) -> Option<
    Seq<char>,
> {
    let i = first_with_key(options, key, 0);
    if 0 <= i < options.len() {
        Some(options[i].1)
    } else {
        None
    }
}

/// What the options set, as plain values.
pub struct ConfigView {
    /// Which programs want which mode.
    pub rules: ClassifierView,
    /// Whether the component goes out of sight once it is set up.
    pub hide_self: bool,
}

/// What `options` and the shell in use set: the locked programs are the
/// names listed under `locked_mode_programs`, none without that option, and
/// `hide` is on where its value is `true`.
pub open spec fn configured(options: Seq<(Seq<char>, Seq<char>)>, default_shell: Seq<char>) -> ConfigView {
    ConfigView {
        rules: ClassifierView {
            locked: match option_value(options, locked_programs_key()) {
                Some(list) => names_of(list),
                None => Set::empty(),
            },
            default_shell,
        },
        hide_self: option_value(options, hide_key()) == Some(on_value()),
    }
}

/// `first_with_key` lies between `from` and the end, no pair it passed over
/// has the key, and it stops at the end or at a pair that has it.
pub proof fn lemma_first_with_key(options: Seq<(Seq<char>, Seq<char>)>, key: Seq<char>, from: int)
    requires
        0 <= from <= options.len(),
    ensures
        from <= first_with_key(options, key, from) <= options.len(),
        forall|i: int|
            from <= i < first_with_key(options, key, from) ==> (#[trigger] options[i]).0 != key,
        first_with_key(options, key, from) < options.len() ==> options[first_with_key(
            options,
            key,
            from,
        )].0 == key,
    decreases options.len() - from,
{
    if from < options.len() && options[from].0 != key {
        lemma_first_with_key(options, key, from + 1);
    }
}

/// An option has a value exactly where a pair has its key, and the value is
/// then that of the first such pair.
pub proof fn law_option_value_is_first_match(options: Seq<(Seq<char>, Seq<char>)>, key: Seq<char>)
    ensures
        option_value(options, key) is Some <==> exists|i: int|
            0 <= i < options.len() && (#[trigger] options[i]).0 == key,
        option_value(options, key) matches Some(value) ==> exists|i: int|
            0 <= i < options.len() && (#[trigger] options[i]).0 == key && options[i].1 == value
                && forall|j: int| 0 <= j < i ==> (#[trigger] options[j]).0 != key,
{
    lemma_first_with_key(options, key, 0);
    let k = first_with_key(options, key, 0);
    if k < options.len() {
        assert(options[k].0 == key);
    }
}

/// The value of the option `key`, where `options` holds it.
pub fn find_option<'a>(options: &'a Vec<(String, String)>, key: &str) -> (r: Option<&'a str>)
    ensures
        opt_text(r) == option_value(options_view(options@), key@),
{
    let ghost views = options_view(options@);
    let mut i: usize = 0;
    while i < options.len()
        invariant
            i <= options.len(),
            views == options_view(options@),
            first_with_key(views, key@, 0) == first_with_key(views, key@, i as int),
        decreases options.len() - i,
    {
        let o = &options[i];
        assert(views[i as int] == (o.0@, o.1@));
        if same_text(o.0.as_str(), key) {
            return Some(o.1.as_str());
        }
        i += 1;
    }
    None
}

/// The options the component is started with. They do not change.
pub struct Config {
    classifier: ProgramClassifier,
    hide_self: bool,
}

impl View for Config {
    type V = ConfigView;

    closed spec fn view(&self) -> ConfigView {
        ConfigView { rules: self.classifier@, hide_self: self.hide_self }
    }
}

impl Config {
    /// Reads the options. `default_shell` is the command line of the shell
    /// that panes run where they were started with nothing else.
    pub fn load(options: &Vec<(String, String)>, default_shell: String) -> (r: Self)
        ensures
            r@ == configured(options_view(options@), default_shell@),
    {
        let classifier = match find_option(options, "locked_mode_programs") {
            Some(list) => ProgramClassifier::from_list(list, default_shell),
            None => ProgramClassifier::new(default_shell),
        };
        let hide_self = match find_option(options, "hide") {
            Some(value) => same_text(value, "true"),
            None => false,
        };
        Config { classifier, hide_self }
    }

    /// Options made of a classifier and the `hide` switch.
    pub fn new(classifier: ProgramClassifier, hide_self: bool) -> (r: Self)
        ensures
            r@.rules == classifier@,
            r@.hide_self == hide_self,
    {
        Config { classifier, hide_self }
    }

    /// Which programs want which mode.
    pub fn classifier(&self) -> (r: &ProgramClassifier)
        ensures
            r@ == self@.rules,
    {
        &self.classifier
    }

    /// Whether the component goes out of sight once it is set up.
    pub fn hide_self(&self) -> (r: bool)
        ensures
            r == self@.hide_self,
    {
        self.hide_self
    }
}

} // verus!
