//! Configuration tables as plain values.

use crate::number::{debug_text, quoted, signed_decimal, to_signed_decimal};
use crate::text::{cat3, text_eq};
use vstd::prelude::*;

verus! {

/// A value of a configuration table.
#[derive(Debug)]
pub enum ConfigValue {
    Text(String),
    Integer(i64),
    Boolean(bool),
    List(Vec<ConfigValue>),
    Table(ConfigTable),
    /// A value of another kind, which no setting takes, as it is shown.
    Other(String),
}

/// One setting.
#[derive(Debug)]
pub struct ConfigEntry {
    pub key: String,
    pub value: ConfigValue,
}

/// A table of settings.
#[derive(Debug)]
pub struct ConfigTable {
    pub entries: Vec<ConfigEntry>,
}

/// The value of the first entry under `key`.
pub open spec fn lookup(entries: Seq<ConfigEntry>, key: Seq<char>) -> Option<ConfigValue>
    decreases entries.len(),
{
    if entries.len() == 0 {
        None
    } else if entries[0].key@ == key {
        Some(entries[0].value)
    } else {
        lookup(entries.drop_first(), key)
    }
}

/// How a value is shown in a complaint about it.
pub open spec fn shown(v: ConfigValue) -> Seq<char>
    decreases v,
{
    match v {
        ConfigValue::Text(s) => "String("@ + debug_text(s@) + ")"@,
        ConfigValue::Integer(i) => "Integer("@ + signed_decimal(i as int) + ")"@,
        ConfigValue::Boolean(b) => "Boolean("@ + (if b {
            "true"@
        } else {
            "false"@
        }) + ")"@,
        ConfigValue::List(items) => "Array(["@ + shown_items(items@, items@.len()) + "])"@,
        ConfigValue::Table(t) => "Table({"@ + shown_entries(t.entries@, t.entries@.len()) + "})"@,
        ConfigValue::Other(s) => s@,
    }
}

/// The first values of a list, as they are shown.
pub open spec fn shown_items(items: Seq<ConfigValue>, n: nat) -> Seq<char>
    decreases items, n,
{
    if n == 0 || n > items.len() {
        seq![]
    } else if n == 1 {
        shown(items[0])
    } else {
        shown_items(items, (n - 1) as nat) + ", "@ + shown(items[n - 1])
    }
}

/// The first entries of a table, as they are shown.
pub open spec fn shown_entries(entries: Seq<ConfigEntry>, n: nat) -> Seq<char>
    decreases entries, n,
{
    if n == 0 || n > entries.len() {
        seq![]
    } else if n == 1 {
        debug_text(entries[0].key@) + ": "@ + shown(entries[0].value)
    } else {
        shown_entries(entries, (n - 1) as nat) + ", "@ + (debug_text(entries[n - 1].key@) + ": "@ + shown(
            entries[n - 1].value,
        ))
    }
}

/// Shows a value.
pub fn show(v: &ConfigValue) -> (r: String)
    ensures
        r@ == shown(*v),
    decreases v,
{
    match v {
        ConfigValue::Text(s) => cat3("String(", quoted(s.as_str()).as_str(), ")"),
        ConfigValue::Integer(i) => cat3("Integer(", to_signed_decimal(*i).as_str(), ")"),
        ConfigValue::Boolean(b) => {
            let word = if *b {
                "true"
            } else {
                "false"
            };
            cat3("Boolean(", word, ")")
        },
        ConfigValue::List(items) => {
            let mut out = String::new();
            let mut n: usize = 0;
            proof {
                assert(out@ =~= shown_items(items@, 0));
            }
            while n < items.len()
                invariant
                    n <= items.len(),
                    v == ConfigValue::List(*items),
                    out@ == shown_items(items@, n as nat),
                decreases items.len() - n,
            {
                proof {
                    assert(decreases_to!(*v => (*v)->List_0));
                    assert(decreases_to!(*items => items@));
                    assert(decreases_to!(items@ => items@[n as int]));
                }
                let one = show(&items[n]);
                if n == 0 {
                    out = one;
                } else {
                    out = cat3(out.as_str(), ", ", one.as_str());
                }
                n += 1;
            }
            cat3("Array([", out.as_str(), "])")
        },
        ConfigValue::Table(t) => {
            let mut out = String::new();
            let mut n: usize = 0;
            proof {
                assert(out@ =~= shown_entries(t.entries@, 0));
            }
            while n < t.entries.len()
                invariant
                    n <= t.entries.len(),
                    v == ConfigValue::Table(*t),
                    out@ == shown_entries(t.entries@, n as nat),
                decreases t.entries.len() - n,
            {
                proof {
                    assert(decreases_to!(*v => (*v)->Table_0));
                    assert(decreases_to!(*t => t.entries));
                    assert(decreases_to!(t.entries => t.entries@));
                    assert(decreases_to!(t.entries@ => t.entries@[n as int]));
                    assert(decreases_to!(t.entries@[n as int] => t.entries@[n as int].value));
                }
                let value = show(&t.entries[n].value);
                let one = cat3(quoted(t.entries[n].key.as_str()).as_str(), ": ", value.as_str());
                if n == 0 {
                    out = one;
                } else {
                    out = cat3(out.as_str(), ", ", one.as_str());
                }
                n += 1;
            }
            cat3("Table({", out.as_str(), "})")
        },
        ConfigValue::Other(s) => s.clone(),
    }
}

impl ConfigTable {
    /// The value under `key`.
    pub open spec fn at(self, key: Seq<char>) -> Option<ConfigValue> {
        lookup(self.entries@, key)
    }

    /// The text under `key`, where there is one.
    pub open spec fn text_at(self, key: Seq<char>) -> Option<Seq<char>> {
        match self.at(key) {
            Some(ConfigValue::Text(s)) => Some(s@),
            _ => None,
        }
    }

    /// The integer under `key`, where there is one.
    pub open spec fn integer_at(self, key: Seq<char>) -> Option<i64> {
        match self.at(key) {
            Some(ConfigValue::Integer(i)) => Some(i),
            _ => None,
        }
    }

    /// The truth value under `key`, where there is one.
    pub open spec fn boolean_at(self, key: Seq<char>) -> Option<bool> {
        match self.at(key) {
            Some(ConfigValue::Boolean(b)) => Some(b),
            _ => None,
        }
    }

    /// The table under `key`, where there is one.
    pub open spec fn table_at(self, key: Seq<char>) -> Option<ConfigTable> {
        match self.at(key) {
            Some(ConfigValue::Table(t)) => Some(t),
            _ => None,
        }
    }

    /// Looks `key` up.
    pub fn get(&self, key: &str) -> (r: Option<&ConfigValue>)
        ensures
            match r {
                Some(v) => self.at(key@) == Some(*v),
                None => self.at(key@) is None,
            },
    {
        let mut i: usize = 0;
        proof {
            assert(self.entries@.skip(0) =~= self.entries@);
        }
        while i < self.entries.len()
            invariant
                i <= self.entries.len(),
                self.at(key@) == lookup(self.entries@.skip(i as int), key@),
            decreases self.entries.len() - i,
        {
            if text_eq(self.entries[i].key.as_str(), key) {
                return Some(&self.entries[i].value);
            }
            proof {
                assert(self.entries@.skip(i as int).drop_first() =~= self.entries@.skip(i as int + 1));
            }
            i += 1;
        }
        None
    }

    /// The text under `key`.
    pub fn get_text(&self, key: &str) -> (r: Option<&str>)
        ensures
            crate::text::opt_slice(r) == self.text_at(key@),
    {
        match self.get(key) {
            Some(ConfigValue::Text(s)) => Some(s.as_str()),
            _ => None,
        }
    }

    /// The integer under `key`.
    pub fn get_integer(&self, key: &str) -> (r: Option<i64>)
        ensures
            r == self.integer_at(key@),
    {
        match self.get(key) {
            Some(ConfigValue::Integer(i)) => Some(*i),
            _ => None,
        }
    }

    /// The truth value under `key`.
    pub fn get_boolean(&self, key: &str) -> (r: Option<bool>)
        ensures
            r == self.boolean_at(key@),
    {
        match self.get(key) {
            Some(ConfigValue::Boolean(b)) => Some(*b),
            _ => None,
        }
    }

    /// The table under `key`.
    pub fn get_table(&self, key: &str) -> (r: Option<&ConfigTable>)
        ensures
            match r {
                Some(t) => self.table_at(key@) == Some(*t),
                None => self.table_at(key@) is None,
            },
    {
        match self.get(key) {
            Some(ConfigValue::Table(t)) => Some(t),
            _ => None,
        }
    }
}

/// A setting is that of the first entry of its name, and of its own type: a number is not
/// read as a text, nor the other way round.
pub proof fn settings_are_found_by_name(table: ConfigTable, rest: ConfigTable, key: Seq<char>)
    requires
        table.entries@.len() > 0,
        rest.entries@ == table.entries@.drop_first(),
    ensures
        table.entries@[0].key@ != key ==> table.at(key) == rest.at(key),
        table.entries@[0].key@ == key ==> {
            &&& table.at(key) == Some(table.entries@[0].value)
            &&& table.entries@[0].value matches ConfigValue::Text(s) ==> table.text_at(key) == Some(s@)
                && table.integer_at(key) is None && table.boolean_at(key) is None && table.table_at(key) is None
            &&& table.entries@[0].value matches ConfigValue::Integer(i) ==> table.integer_at(key) == Some(i)
                && table.text_at(key) is None && table.boolean_at(key) is None && table.table_at(key) is None
            &&& table.entries@[0].value matches ConfigValue::Boolean(b) ==> table.boolean_at(key) == Some(b)
                && table.text_at(key) is None && table.integer_at(key) is None && table.table_at(key) is None
            &&& table.entries@[0].value matches ConfigValue::Table(t) ==> table.table_at(key) == Some(t)
                && table.text_at(key) is None && table.integer_at(key) is None && table.boolean_at(key) is None
        },
{
}

/// An empty table has no settings.
pub proof fn empty_tables_have_no_settings(table: ConfigTable, key: Seq<char>)
    requires
        table.entries@.len() == 0,
    ensures
        table.at(key) is None,
        table.text_at(key) is None,
        table.integer_at(key) is None,
        table.boolean_at(key) is None,
        table.table_at(key) is None,
{
}

} // verus!
