//! The directories that the library is made of, as the settings name them.

use crate::config_value::{show, shown, ConfigTable, ConfigValue};
use crate::number::{decimal, to_decimal};
use crate::paths::{is_absolute, starts_at_root};
use crate::text::{cat3, push_text, texts};
use vstd::prelude::*;

verus! {

/// A complaint about a setting.
#[derive(Debug, Clone)]
pub struct ConfigError {
    pub key: String,
    pub message: String,
}

/// [`ConfigError`] over character sequences.
#[verifier::ext_equal]
pub struct ConfigErrorView {
    pub key: Seq<char>,
    pub message: Seq<char>,
}

impl View for ConfigError {
    type V = ConfigErrorView;

    open spec fn view(&self) -> ConfigErrorView {
        ConfigErrorView { key: self.key@, message: self.message@ }
    }
}

impl ConfigErrorView {
    /// How a complaint reads.
    pub open spec fn text(self) -> Seq<char> {
        self.key + ": "@ + self.message
    }
}

impl ConfigError {
    /// Writes a complaint.
    pub fn to_text(&self) -> (r: String)
        ensures
            r@ == self@.text(),
    {
        cat3(self.key.as_str(), ": ", self.message.as_str())
    }
}

/// The complaint about a setting that shall be a table and is not.
pub open spec fn not_a_table(key: Seq<char>, v: ConfigValue) -> ConfigErrorView {
    ConfigErrorView { key, message: "expected a table, got Some("@ + shown(v) + ")"@ }
}

/// Complains about a setting that shall be a table and is not.
pub fn complain_not_a_table(key: &str, v: &ConfigValue) -> (r: ConfigError)
    ensures
        r@ == not_a_table(key@, *v),
{
    ConfigError { key: key.to_owned(), message: cat3("expected a table, got Some(", show(v).as_str(), ")") }
}

/// The key of one root in the list.
pub open spec fn root_key(i: nat) -> Seq<char> {
    "library.roots["@ + decimal(i) + "]"@
}

/// The complaint about a root that does not start at the root of the file system.
pub open spec fn not_absolute(key: Seq<char>) -> ConfigErrorView {
    ConfigErrorView { key, message: "library root must be an absolute path"@ }
}

/// The roots that a list names, up to an index; or the first complaint about one.
pub open spec fn listed_roots(items: Seq<ConfigValue>, n: nat) -> Result<Seq<Seq<char>>, ConfigErrorView>
    decreases n,
{
    if n == 0 || n > items.len() {
        Ok(seq![])
    } else {
        match listed_roots(items, (n - 1) as nat) {
            Ok(before) => match items[n - 1] {
                ConfigValue::Text(s) => if is_absolute(s@) {
                    Ok(before.push(s@))
                } else {
                    Err(not_absolute(root_key((n - 1) as nat)))
                },
                _ => Err(
                    ConfigErrorView { key: root_key((n - 1) as nat), message: "expected a string path"@ },
                ),
            },
            Err(e) => Err(e),
        }
    }
}

/// The roots that the list `roots` names.
pub open spec fn roots_listed(table: ConfigTable) -> Result<Seq<Seq<char>>, ConfigErrorView> {
    match table.at("roots"@) {
        Some(ConfigValue::List(items)) => listed_roots(items@, items@.len()),
        _ => Ok(seq![]),
    }
}

/// The roots that a table names: those of the list `roots`, and that of `root` behind
/// them.
pub open spec fn roots_in(table: ConfigTable) -> Result<Seq<Seq<char>>, ConfigErrorView> {
    match roots_listed(table) {
        Ok(listed) => match table.at("root"@) {
            Some(ConfigValue::Text(s)) => if is_absolute(s@) {
                Ok(listed.push(s@))
            } else {
                Err(not_absolute("library.root"@))
            },
            _ => Ok(listed),
        },
        Err(e) => Err(e),
    }
}

/// The roots that the settings name.
pub open spec fn library_roots(table: ConfigTable) -> Result<Seq<Seq<char>>, ConfigErrorView> {
    match table.at("library"@) {
        None => Ok(seq![]),
        Some(ConfigValue::Table(t)) => roots_in(t),
        Some(v) => Err(not_a_table("library"@, v)),
    }
}

/// The view of roots or a complaint.
pub open spec fn roots_result(r: Result<Vec<String>, ConfigError>) -> Result<Seq<Seq<char>>, ConfigErrorView> {
    match r {
        Ok(v) => Ok(texts(v@)),
        Err(e) => Err(e@),
    }
}

fn key_of(i: usize) -> (r: String)
    ensures
        r@ == root_key(i as nat),
{
    cat3("library.roots[", to_decimal(i as u64).as_str(), "]")
}

/// Whether a list names roots up to an index, and says nothing wrong before it.
proof fn lemma_listed_error(items: Seq<ConfigValue>, i: nat, n: nat)
    requires
        i <= n <= items.len(),
        listed_roots(items, i) is Err,
    ensures
        listed_roots(items, n) == listed_roots(items, i),
    decreases n,
{
    if i < n {
        lemma_listed_error(items, i, (n - 1) as nat);
    }
}

/// Reads the roots out of a table.
pub fn parse_library_roots(table: &ConfigTable) -> (r: Result<Vec<String>, ConfigError>)
    ensures
        roots_result(r) == roots_in(*table),
{
    let mut out: Vec<String> = Vec::new();
    proof {
        assert(texts(out@) =~= seq![]);
    }
    if let Some(ConfigValue::List(items)) = table.get("roots") {
        let mut i: usize = 0;
        while i < items.len()
            invariant
                i <= items.len(),
                table.at("roots"@) == Some(ConfigValue::List(*items)),
                listed_roots(items@, i as nat) == Ok::<Seq<Seq<char>>, ConfigErrorView>(texts(out@)),
            decreases items.len() - i,
        {
            match &items[i] {
                ConfigValue::Text(s) => {
                    if !starts_at_root(s.as_str()) {
                        proof {
                            lemma_listed_error(items@, (i + 1) as nat, items@.len());
                        }
                        return Err(
                            ConfigError {
                                key: key_of(i),
                                message: "library root must be an absolute path".to_owned(),
                            },
                        );
                    }
                    push_text(&mut out, s.as_str());
                },
                _ => {
                    proof {
                        lemma_listed_error(items@, (i + 1) as nat, items@.len());
                    }
                    return Err(ConfigError { key: key_of(i), message: "expected a string path".to_owned() });
                },
            }
            i += 1;
        }
    }
    if let Some(ConfigValue::Text(s)) = table.get("root") {
        if !starts_at_root(s.as_str()) {
            return Err(
                ConfigError {
                    key: "library.root".to_owned(),
                    message: "library root must be an absolute path".to_owned(),
                },
            );
        }
        push_text(&mut out, s.as_str());
    }
    Ok(out)
}

/// Reads the roots out of the settings.
pub fn library_roots_of(table: &ConfigTable) -> (r: Result<Vec<String>, ConfigError>)
    ensures
        roots_result(r) == library_roots(*table),
{
    match table.get("library") {
        None => {
            let none: Vec<String> = Vec::new();
            proof {
                assert(texts(none@) =~= seq![]);
            }
            Ok(none)
        },
        Some(ConfigValue::Table(t)) => parse_library_roots(t),
        Some(v) => Err(complain_not_a_table("library", v)),
    }
}

proof fn lemma_listed_absolute(items: Seq<ConfigValue>, n: nat)
    requires
        n <= items.len(),
        listed_roots(items, n) is Ok,
    ensures
        forall|i: int| 0 <= i < listed_roots(items, n)->Ok_0.len() ==> is_absolute(#[trigger] listed_roots(items, n)->Ok_0[i]),
    decreases n,
{
    if n > 0 {
        lemma_listed_absolute(items, (n - 1) as nat);
    }
}

/// Every root that the settings name starts at the root of the file system.
pub proof fn roots_are_absolute(table: ConfigTable)
    requires
        library_roots(table) is Ok,
    ensures
        forall|i: int| 0 <= i < library_roots(table)->Ok_0.len() ==> is_absolute(#[trigger] library_roots(table)->Ok_0[i]),
{
    if let Some(ConfigValue::Table(t)) = table.at("library"@) {
        if let Some(ConfigValue::List(items)) = t.at("roots"@) {
            if listed_roots(items@, items@.len()) is Ok {
                lemma_listed_absolute(items@, items@.len());
            }
        }
    }
}

/// The roots are the listed ones in their order, and behind them the single one; every
/// root stands as it was written.
pub proof fn roots_are_listed_in_order(library: ConfigTable, items: Vec<ConfigValue>, i: int)
    requires
        library.at("roots"@) == Some(ConfigValue::List(items)),
        roots_in(library) is Ok,
    ensures
        0 <= i < items@.len() ==> (items@[i] matches ConfigValue::Text(s) && is_absolute(s@) && roots_in(library)->Ok_0.len()
            > i && roots_in(library)->Ok_0[i] == s@),
        library.text_at("root"@) matches Some(s) ==> roots_in(library)->Ok_0.len() == items@.len() + 1 && roots_in(
            library,
        )->Ok_0.last() == s,
        library.text_at("root"@) is None ==> roots_in(library)->Ok_0.len() == items@.len(),
{
    lemma_listed_in_order(items@, items@.len());
}

proof fn lemma_listed_in_order(items: Seq<ConfigValue>, n: nat)
    requires
        n <= items.len(),
        listed_roots(items, n) is Ok,
    ensures
        listed_roots(items, n)->Ok_0.len() == n,
        forall|i: int|
            0 <= i < n ==> (#[trigger] items[i] matches ConfigValue::Text(s) && is_absolute(s@) && listed_roots(items, n)->Ok_0[i]
                == s@),
    decreases n,
{
    if n > 0 {
        lemma_listed_in_order(items, (n - 1) as nat);
    }
}

/// A table without either setting has no roots; the single root may stand alone. The
/// table itself may be left out, and then there are none.
pub proof fn roots_may_be_left_out(table: ConfigTable, library: ConfigTable)
    ensures
        table.at("library"@) is None ==> library_roots(table) == Ok::<Seq<Seq<char>>, ConfigErrorView>(seq![]),
        table.at("library"@) == Some(ConfigValue::Table(library)) ==> library_roots(table) == roots_in(library),
        library.at("roots"@) is None && library.at("root"@) is None ==> roots_in(library) == Ok::<
            Seq<Seq<char>>,
            ConfigErrorView,
        >(seq![]),
        library.at("roots"@) is None ==> (library.text_at("root"@) matches Some(s) ==> (if is_absolute(s) {
            roots_in(library) == Ok::<Seq<Seq<char>>, ConfigErrorView>(seq![s])
        } else {
            roots_in(library) == Err::<Seq<Seq<char>>, ConfigErrorView>(
                (ConfigErrorView { key: "library.root"@, message: "library root must be an absolute path"@ }),
            )
        })),
{
}

/// The first entry that is no absolute path is refused under its place in the list.
pub proof fn bad_roots_are_refused_by_place(items: Seq<ConfigValue>, n: nat)
    requires
        0 < n <= items.len(),
        listed_roots(items, (n - 1) as nat) is Ok,
    ensures
        items[n - 1] matches ConfigValue::Text(s) ==> (!is_absolute(s@) ==> listed_roots(items, n) == Err::<
            Seq<Seq<char>>,
            ConfigErrorView,
        >(
            (ConfigErrorView {
                key: "library.roots["@ + decimal((n - 1) as nat) + "]"@,
                message: "library root must be an absolute path"@,
            }),
        )),
        !(items[n - 1] is Text) ==> listed_roots(items, n) == Err::<Seq<Seq<char>>, ConfigErrorView>(
            (ConfigErrorView {
                key: "library.roots["@ + decimal((n - 1) as nat) + "]"@,
                message: "expected a string path"@,
            }),
        ),
{
}

/// Each field is seen under its own name, as it is.
pub proof fn fields_are_seen_under_their_names(config_error: ConfigError)
    ensures
        config_error@.key == config_error.key@,
        config_error@.message == config_error.message@,
{
}

} // verus!
