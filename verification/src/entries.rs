//! What a directory entry's file name says about it: a script, a task config,
//! or neither.

use vstd::prelude::*;
use crate::text::{ends_with, has_suffix, same_text, strip_trailing, without_trailing};

verus! {

/// The place of the last dot in `name`, or -1 where it has none.
pub open spec fn last_dot(name: Seq<char>) -> int
    decreases name.len(),
{
    if name.len() == 0 {
        -1
    } else if name.last() == '.' {
        name.len() - 1
    } else {
        last_dot(name.drop_last())
    }
}

/// `last_dot` is the place of a dot behind which no dot follows, and -1 only
/// where the name has no dot at all.
pub proof fn lemma_last_dot(name: Seq<char>)
    ensures
        -1 <= last_dot(name) < name.len(),
        last_dot(name) >= 0 ==> name[last_dot(name)] == '.',
        forall|i: int| last_dot(name) < i < name.len() ==> name[i] != '.',
    decreases name.len(),
{
    if name.len() > 0 && name.last() != '.' {
        lemma_last_dot(name.drop_last());
        assert forall|i: int| last_dot(name) < i < name.len() implies name[i] != '.' by {
            if i < name.len() - 1 {
                assert(name.drop_last()[i] == name[i]);
            }
        }
    }
}

/// A file name's extension: what follows its last dot. A name without a dot,
/// or with none but a leading one, has no extension.
pub open spec fn extension(name: Seq<char>) -> Option<Seq<char>> {
    if last_dot(name) <= 0 {
        None
    } else {
        Some(name.subrange(last_dot(name) + 1, name.len() as int))
    }
}

/// A file name's stem: what precedes its last dot, or the whole name where
/// it has no extension.
pub open spec fn file_stem(name: Seq<char>) -> Seq<char> {
    if last_dot(name) <= 0 {
        name
    } else {
        name.subrange(0, last_dot(name))
    }
}

/// The ending that marks a task config.
pub open spec fn config_suffix() -> Seq<char> {
    ".lunar.toml"@
}

/// What a directory entry is to the walk.
#[derive(Debug, PartialEq, Eq)]
pub enum EntryKind {
    /// A script: the task is named by the file's stem.
    Script(String),
    /// A task config, with the name its tasks get where it declares none.
    Config(String),
    /// Nothing that yields a task.
    Other,
}

/// What an `EntryKind` holds, as plain values.
pub enum EntryKindView {
    Script(Seq<char>),
    Config(Seq<char>),
    Other,
}

impl View for EntryKind {
    type V = EntryKindView;

    open spec fn view(&self) -> EntryKindView {
        match self {
            EntryKind::Script(name) => EntryKindView::Script(name@),
            EntryKind::Config(name) => EntryKindView::Config(name@),
            EntryKind::Other => EntryKindView::Other,
        }
    }
}

/// A file with the extension `lua` or `luau` is a script, whatever else its
/// name holds; any other file whose name ends in `.lunar.toml` is a config,
/// named by what is left once every such ending is taken off.
pub open spec fn entry_kind(name: Seq<char>) -> EntryKindView {
    if extension(name) == Some("lua"@) || extension(name) == Some("luau"@) {
        EntryKindView::Script(file_stem(name))
    } else if ends_with(name, config_suffix()) {
        EntryKindView::Config(without_trailing(name, config_suffix()))
    } else {
        EntryKindView::Other
    }
}

/// Finds the last dot of `name`.
pub fn find_last_dot(name: &str) -> (r: Option<usize>)
    ensures
        match r {
            Some(i) => last_dot(name@) == i && i < name@.len(),
            None => last_dot(name@) == -1,
        },
{
    let n: usize = name.unicode_len();
    let mut i: usize = n;
    proof {
        assert(name@.take(n as int) == name@);
    }
    while i > 0
        invariant
            i <= n,
            n == name@.len(),
            last_dot(name@) == last_dot(name@.take(i as int)),
        decreases i,
    {
        if name.get_char(i - 1) == '.' {
            proof {
                assert(name@.take(i as int).last() == '.');
            }
            return Some(i - 1);
        }
        proof {
            assert(name@.take(i as int).drop_last() == name@.take(i - 1));
        }
        i = i - 1;
    }
    proof {
        assert(name@.take(0).len() == 0);
    }
    None
}

/// Tells what kind of entry a file name stands for.
pub fn classify_entry(name: &str) -> (r: EntryKind)
    ensures
        r@ == entry_kind(name@),
{
    let n: usize = name.unicode_len();
    match find_last_dot(name) {
        Some(i) => {
            if i > 0 {
                let ext = name.substring_char(i + 1, n);
                if same_text(ext, "lua") || same_text(ext, "luau") {
                    return EntryKind::Script(name.substring_char(0, i).to_owned());
                }
            }
        },
        None => {},
    }
    if has_suffix(name, ".lunar.toml") {
        proof {
            reveal_strlit(".lunar.toml");
        }
        EntryKind::Config(strip_trailing(name, ".lunar.toml"))
    } else {
        EntryKind::Other
    }
}

/// The last dot of a name that ends in a dot and a dotless tail is that dot.
pub proof fn lemma_last_dot_before_tail(stem: Seq<char>, tail: Seq<char>)
    requires
        forall|i: int| 0 <= i < tail.len() ==> tail[i] != '.',
    ensures
        last_dot(stem + seq!['.'] + tail) == stem.len(),
    decreases tail.len(),
{
    let name = stem + seq!['.'] + tail;
    if tail.len() == 0 {
        assert(name.last() == '.');
    } else {
        assert(name.last() == tail.last());
        assert(name.drop_last() =~= stem + seq!['.'] + tail.drop_last());
        lemma_last_dot_before_tail(stem, tail.drop_last());
    }
}

/// A file named by a non-empty stem and the extension `lua` or `luau` is a
/// script, and the stem is the task's name, dots and all.
pub proof fn law_scripts_are_named_by_their_stem(stem: Seq<char>)
    requires
        stem.len() > 0,
    ensures
        entry_kind(stem + ".lua"@) == EntryKindView::Script(stem),
        entry_kind(stem + ".luau"@) == EntryKindView::Script(stem),
{
    reveal_strlit(".lua");
    reveal_strlit(".luau");
    reveal_strlit("lua");
    reveal_strlit("luau");
    let lua = stem + ".lua"@;
    let luau = stem + ".luau"@;
    assert(lua =~= stem + seq!['.'] + "lua"@);
    assert(luau =~= stem + seq!['.'] + "luau"@);
    lemma_last_dot_before_tail(stem, "lua"@);
    lemma_last_dot_before_tail(stem, "luau"@);
    assert(lua.subrange(stem.len() as int + 1, lua.len() as int) =~= "lua"@);
    assert(luau.subrange(stem.len() as int + 1, luau.len() as int) =~= "luau"@);
    assert(lua.subrange(0, stem.len() as int) =~= stem);
    assert(luau.subrange(0, stem.len() as int) =~= stem);
}

/// A file named by a name and the config suffix is a config, and the name
/// is what its tasks fall back to, unless the name ends in the suffix
/// itself.
pub proof fn law_configs_are_named_by_what_precedes_the_suffix(name: Seq<char>)
    requires
        !ends_with(name, config_suffix()),
    ensures
        entry_kind(name + config_suffix()) == EntryKindView::Config(name),
{
    reveal_strlit(".lunar.toml");
    reveal_strlit("lua");
    reveal_strlit("luau");
    let suffix = config_suffix();
    let file = name + suffix;
    assert(suffix =~= ".lunar"@ + seq!['.'] + "toml"@) by {
        reveal_strlit(".lunar");
        reveal_strlit("toml");
    }
    assert(file =~= (name + ".lunar"@) + seq!['.'] + "toml"@);
    assert forall|i: int| 0 <= i < "toml"@.len() implies "toml"@[i] != '.' by {
        reveal_strlit("toml");
    }
    lemma_last_dot_before_tail(name + ".lunar"@, "toml"@);
    assert(last_dot(file) == name.len() + 6) by {
        reveal_strlit(".lunar");
    }
    assert(file.subrange(last_dot(file) + 1, file.len() as int) =~= "toml"@) by {
        reveal_strlit("toml");
    }
    assert(extension(file) == Some("toml"@));
    assert("toml"@ != "lua"@ && "toml"@ != "luau"@) by {
        reveal_strlit("toml");
    }
    assert(file.subrange(file.len() - suffix.len(), file.len() as int) =~= suffix);
    assert(ends_with(file, suffix));
    assert(file.subrange(0, file.len() - suffix.len()) =~= name);
    assert(without_trailing(file, suffix) == without_trailing(name, suffix));
}

} // verus!
