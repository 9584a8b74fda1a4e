//! Location of the state file that the plugin writes.

use vstd::prelude::*;
use vstd::string::*;
use crate::text::chars_of;

verus! {

/// Appends the relative component `part` to the path `base`, with a `/`
/// between them unless `base` is empty or already ends in `/`.
pub open spec fn join_path(base: Seq<char>, part: Seq<char>) -> Seq<char> {
    if base.len() == 0 || base.last() == '/' {
        base + part
    } else {
        base + "/"@ + part
    }
}

/// `<base>/opencode/storage/oh-my-opencode-slim/companion-state.json`, where
/// `<base>` is `XDG_DATA_HOME` when it is set and `$HOME/.local/share`
/// otherwise (an unset `HOME` counts as empty).
pub open spec fn state_path(xdg_data_home: Option<Seq<char>>, home: Option<Seq<char>>) -> Seq<char> {
    let base = match xdg_data_home {
        Some(x) => x,
        None => {
            let h = match home {
                Some(h) => h,
                None => Seq::empty(),
            };
            join_path(join_path(h, ".local"@), "share"@)
        },
    };
    join_path(
        join_path(join_path(join_path(base, "opencode"@), "storage"@), "oh-my-opencode-slim"@),
        "companion-state.json"@,
    )
}

/// Under a data directory that is non-empty and has no trailing `/`, the
/// state file is that directory followed by
/// `/opencode/storage/oh-my-opencode-slim/companion-state.json`; a trailing
/// `/` is not doubled.
pub proof fn law_path_under_data_home(x: Seq<char>, home: Option<Seq<char>>)
    requires
        x.len() > 0,
    ensures
        x.last() != '/' ==> state_path(Some(x), home) =~= x
            + "/opencode/storage/oh-my-opencode-slim/companion-state.json"@,
        x.last() == '/' ==> state_path(Some(x), home) =~= x
            + "opencode/storage/oh-my-opencode-slim/companion-state.json"@,
{
    reveal_strlit("/");
    reveal_strlit("opencode");
    reveal_strlit("storage");
    reveal_strlit("oh-my-opencode-slim");
    reveal_strlit("companion-state.json");
    reveal_strlit("/opencode/storage/oh-my-opencode-slim/companion-state.json");
    reveal_strlit("opencode/storage/oh-my-opencode-slim/companion-state.json");
}

/// Without a data directory, the state file lies under `$HOME/.local/share`
/// (under `.local/share` when `HOME` is unset or empty).
pub proof fn law_path_under_home(h: Seq<char>)
    ensures
        h.len() > 0 && h.last() != '/' ==> state_path(None, Some(h)) =~= h
            + "/.local/share/opencode/storage/oh-my-opencode-slim/companion-state.json"@,
        h.len() == 0 ==> state_path(None, Some(h)) =~= ".local/share/opencode/storage/oh-my-opencode-slim/companion-state.json"@,
        state_path(None, None) =~= ".local/share/opencode/storage/oh-my-opencode-slim/companion-state.json"@,
{
    reveal_strlit("/");
    reveal_strlit(".local");
    reveal_strlit("share");
    reveal_strlit("opencode");
    reveal_strlit("storage");
    reveal_strlit("oh-my-opencode-slim");
    reveal_strlit("companion-state.json");
    reveal_strlit("/.local/share/opencode/storage/oh-my-opencode-slim/companion-state.json");
    reveal_strlit(".local/share/opencode/storage/oh-my-opencode-slim/companion-state.json");
}

/// Appends `part` to `base` as a path component.
fn push_component(base: &mut String, part: &str)
    ensures
        final(base)@ == join_path(old(base)@, part@),
{
    let cs = chars_of(base.as_str());
    let needs_separator = cs.len() > 0 && cs[cs.len() - 1] != '/';
    if needs_separator {
        base.append("/");
    }
    base.append(part);
}

/// The state file's path from the values of `XDG_DATA_HOME` and `HOME`
/// (`None` where unset).
pub fn state_file_path_from(xdg_data_home: Option<String>, home: Option<String>) -> (r: String)
    ensures
        r@ == state_path(
            match xdg_data_home { Some(x) => Some(x@), None => None },
            match home { Some(h) => Some(h@), None => None },
        ),
{
    let mut path = match xdg_data_home {
        Some(x) => x,
        None => {
            let mut h = match home {
                Some(h) => h,
                None => String::new(),
            };
            push_component(&mut h, ".local");
            push_component(&mut h, "share");
            h
        },
    };
    push_component(&mut path, "opencode");
    push_component(&mut path, "storage");
    push_component(&mut path, "oh-my-opencode-slim");
    push_component(&mut path, "companion-state.json");
    path
}

} // verus!
