//! The statistics tool's configuration file, read into name/value pairs.
//!
//! A configuration file is a sequence of lines. A line that is empty or
//! begins with `#` says nothing; every other line names one property: its
//! first whitespace-separated token is the name, its second the value.

use vstd::prelude::*;
use vstd::string::StrSliceExecFns;
use vstd::string::StringExecFns;

verus! {

/// One configuration property: a name and its value.
#[derive(Clone, Debug)]
pub struct ConfigProp {
    pub name: String,
    pub value: String,
}

/// Error produced when a configuration file yields no properties.
#[derive(Clone, Copy, PartialEq, Eq, Structural, Debug)]
pub enum ConfigError {
    NoProps,
}

impl ConfigError {
    /// Human-readable message of the error.
    pub fn message(&self) -> (r: &'static str)
        ensures
            r@ == "No props is found, Please check if vnstat.conf is exist or not."@,
    {
        "No props is found, Please check if vnstat.conf is exist or not."
    }
}

/// The name/value views of a property list.
pub open spec fn props_seq(v: Seq<ConfigProp>) -> Seq<(Seq<char>, Seq<char>)> {
    v.map_values(|p: ConfigProp| (p.name@, p.value@))
}

/// First position at or after `i` holding a line break, or the end of the
/// content.
pub open spec fn line_end(s: Seq<char>, i: int) -> int
    decreases s.len() - i,
{
    if i < 0 || i >= s.len() {
        s.len() as int
    } else if s[i] == '\n' {
        i
    } else {
        line_end(s, i + 1)
    }
}

/// First position in `[i, hi)` holding something other than a space, or `hi`.
pub open spec fn skip_spaces(s: Seq<char>, i: int, hi: int) -> int
    decreases hi - i,
{
    if i < 0 || i >= hi || hi > s.len() {
        hi
    } else if s[i] == ' ' {
        skip_spaces(s, i + 1, hi)
    } else {
        i
    }
}

/// First position in `[i, hi)` holding a space, or `hi`.
pub open spec fn token_end(s: Seq<char>, i: int, hi: int) -> int
    decreases hi - i,
{
    if i < 0 || i >= hi || hi > s.len() {
        hi
    } else if s[i] == ' ' {
        i
    } else {
        token_end(s, i + 1, hi)
    }
}

/// Whether the line `[i, j)` carries a property: it is nonempty and does not
/// begin with the comment mark.
pub open spec fn effective_line(s: Seq<char>, i: int, j: int) -> bool {
    i < j && s[i] != '#'
}

/// The line end never lies before its start nor past the content.
pub proof fn lemma_line_end_bounds(s: Seq<char>, i: int)
    requires
        0 <= i <= s.len(),
    ensures
        i <= line_end(s, i) <= s.len(),
    decreases s.len() - i,
{
    if i < s.len() && s[i] != '\n' {
        lemma_line_end_bounds(s, i + 1);
    }
}

/// The name/value pairs of the content from position `i` on: each effective
/// line contributes its first two whitespace-separated tokens.
pub open spec fn props_from(s: Seq<char>, i: int) -> Seq<(Seq<char>, Seq<char>)>
    decreases s.len() + 1 - i,
    via props_from_decreases
{
    if i < 0 || i >= s.len() {
        Seq::empty()
    } else {
        let j = line_end(s, i);
        let rest = props_from(s, j + 1);
        if effective_line(s, i, j) {
            let a1 = skip_spaces(s, i, j);
            let b1 = token_end(s, a1, j);
            let a2 = skip_spaces(s, b1, j);
            let b2 = token_end(s, a2, j);
            if a1 < j && a2 < j {
                seq![(s.subrange(a1, b1), s.subrange(a2, b2))] + rest
            } else {
                rest
            }
        } else {
            rest
        }
    }
}

#[via_fn]
proof fn props_from_decreases(s: Seq<char>, i: int) {
    if 0 <= i < s.len() {
        lemma_line_end_bounds(s, i);
    }
}

/// Whether the content is well formed: every effective line holds at least
/// two whitespace-separated tokens, so that each one names a property and
/// its value.
pub open spec fn wf_config(s: Seq<char>, i: int) -> bool
    decreases s.len() + 1 - i,
    via wf_config_decreases
{
    if i < 0 || i >= s.len() {
        true
    } else {
        let j = line_end(s, i);
        let line_ok = !effective_line(s, i, j) || {
            let a1 = skip_spaces(s, i, j);
            let b1 = token_end(s, a1, j);
            let a2 = skip_spaces(s, b1, j);
            a1 < j && a2 < j
        };
        line_ok && wf_config(s, j + 1)
    }
}

#[via_fn]
proof fn wf_config_decreases(s: Seq<char>, i: int) {
    if 0 <= i < s.len() {
        lemma_line_end_bounds(s, i);
    }
}

/// Finds the end of the line starting at `from`: the next line break, or the
/// end of the content.
fn find_line_end(s: &str, n: usize, from: usize) -> (r: usize)
    requires
        n == s@.len(),
        from <= n,
    ensures
        r == line_end(s@, from as int),
        from <= r <= n,
{
    let mut k = from;
    while k < n
        invariant
            from <= k <= n,
            n == s@.len(),
            line_end(s@, from as int) == line_end(s@, k as int),
        decreases n - k,
    {
        if s.get_char(k) == '\n' {
            assert(line_end(s@, k as int) == k);
            return k;
        }
        assert(line_end(s@, k as int) == line_end(s@, k as int + 1));
        k = k + 1;
    }
    assert(line_end(s@, k as int) == n);
    n
}

/// Finds the first non-space position in `[from, hi)`, or `hi`.
fn find_nonspace(s: &str, n: usize, from: usize, hi: usize) -> (r: usize)
    requires
        n == s@.len(),
        from <= hi <= n,
    ensures
        r == skip_spaces(s@, from as int, hi as int),
        from <= r <= hi,
{
    let mut k = from;
    while k < hi
        invariant
            from <= k <= hi <= n,
            n == s@.len(),
            skip_spaces(s@, from as int, hi as int) == skip_spaces(s@, k as int, hi as int),
        decreases hi - k,
    {
        if s.get_char(k) != ' ' {
            assert(skip_spaces(s@, k as int, hi as int) == k);
            return k;
        }
        assert(skip_spaces(s@, k as int, hi as int) == skip_spaces(s@, k as int + 1, hi as int));
        k = k + 1;
    }
    assert(skip_spaces(s@, k as int, hi as int) == hi);
    hi
}

/// Finds the first space in `[from, hi)`, or `hi`.
fn find_token_end(s: &str, n: usize, from: usize, hi: usize) -> (r: usize)
    requires
        n == s@.len(),
        from <= hi <= n,
    ensures
        r == token_end(s@, from as int, hi as int),
        from <= r <= hi,
{
    let mut k = from;
    while k < hi
        invariant
            from <= k <= hi <= n,
            n == s@.len(),
            token_end(s@, from as int, hi as int) == token_end(s@, k as int, hi as int),
        decreases hi - k,
    {
        if s.get_char(k) == ' ' {
            assert(token_end(s@, k as int, hi as int) == k);
            return k;
        }
        assert(token_end(s@, k as int, hi as int) == token_end(s@, k as int + 1, hi as int));
        k = k + 1;
    }
    assert(token_end(s@, k as int, hi as int) == hi);
    hi
}

/// Parses the content of a configuration file into its property list: one
/// name/value pair for each effective line, in file order.
pub fn parse_props(content: &str) -> (r: Vec<ConfigProp>)
    requires
        wf_config(content@, 0),
    ensures
        props_seq(r@) == props_from(content@, 0),
{
    let n = content.unicode_len();
    let mut props: Vec<ConfigProp> = Vec::new();
    let mut i: usize = 0;
    while i < n
        invariant
            n == content@.len(),
            i <= n,
            wf_config(content@, i as int),
            props_seq(props@) + props_from(content@, i as int) =~= props_from(content@, 0),
        decreases n - i,
    {
        let ghost gs = content@;
        let ghost gi = i as int;
        let j = find_line_end(content, n, i);
        let ghost gj = j as int;
        if j > i && content.get_char(i) != '#' {
            let a1 = find_nonspace(content, n, i, j);
            let b1 = find_token_end(content, n, a1, j);
            let a2 = find_nonspace(content, n, b1, j);
            let b2 = find_token_end(content, n, a2, j);
            proof {
                assert(effective_line(gs, gi, gj));
                assert(a1 < j && a2 < j);
            }
            let name = content.substring_char(a1, b1).to_owned();
            let value = content.substring_char(a2, b2).to_owned();
            let ghost props_before = props@;
            props.push(ConfigProp { name, value });
            proof {
                assert(props_seq(props@) =~= props_seq(props_before).push(
                    (gs.subrange(a1 as int, b1 as int), gs.subrange(a2 as int, b2 as int)),
                ));
                assert(props_from(gs, gi) =~= seq![
                    (gs.subrange(a1 as int, b1 as int), gs.subrange(a2 as int, b2 as int)),
                ] + props_from(gs, gj + 1));
                assert(props_seq(props@) + props_from(gs, gj + 1) =~= props_seq(props_before)
                    + props_from(gs, gi));
            }
        } else {
            proof {
                assert(!effective_line(gs, gi, gj));
                assert(props_from(gs, gi) == props_from(gs, gj + 1));
            }
        }
        if j < n {
            i = j + 1;
        } else {
            proof {
                assert(props_from(gs, gj + 1) =~= props_from(gs, n as int));
            }
            i = n;
        }
    }
    proof {
        assert(props_from(content@, n as int) =~= Seq::<(Seq<char>, Seq<char>)>::empty());
        assert(props_seq(props@) =~= props_from(content@, 0));
    }
    props
}

/// Decides whether file content is well formed: every effective line holds
/// at least a name and a value. Content this accepts is exactly what
/// `parse_props` asks for.
pub fn is_wf_config(content: &str) -> (r: bool)
    ensures
        r == wf_config(content@, 0),
{
    let n = content.unicode_len();
    let mut i: usize = 0;
    while i < n
        invariant
            n == content@.len(),
            i <= n,
            wf_config(content@, 0) == wf_config(content@, i as int),
        decreases n - i,
    {
        let j = find_line_end(content, n, i);
        if j > i && content.get_char(i) != '#' {
            let a1 = find_nonspace(content, n, i, j);
            let b1 = find_token_end(content, n, a1, j);
            let a2 = find_nonspace(content, n, b1, j);
            if !(a1 < j && a2 < j) {
                proof {
                    assert(!wf_config(content@, i as int));
                }
                return false;
            }
        }
        proof {
            assert(wf_config(content@, i as int) == wf_config(content@, j as int + 1));
        }
        if j < n {
            i = j + 1;
        } else {
            proof {
                assert(wf_config(content@, n as int));
            }
            i = n;
        }
    }
    proof {
        assert(wf_config(content@, i as int));
    }
    true
}

/// An exact copy of a property list.
fn clone_props(v: &Vec<ConfigProp>) -> (r: Vec<ConfigProp>)
    ensures
        r@ == v@,
{
    let mut r: Vec<ConfigProp> = Vec::new();
    let mut i: usize = 0;
    while i < v.len()
        invariant
            i <= v.len(),
            r@ == v@.subrange(0, i as int),
        decreases v.len() - i,
    {
        r.push(ConfigProp { name: v[i].name.clone(), value: v[i].value.clone() });
        proof {
            assert(r@ =~= v@.subrange(0, i as int + 1));
        }
        i = i + 1;
    }
    proof {
        assert(v@.subrange(0, v@.len() as int) =~= v@);
    }
    r
}

/// The statistics tool's configuration: the path its file lives at, and the
/// properties read from that file once they have been read.
#[derive(Clone, Debug)]
pub struct VnStatConfigs {
    pub path: String,
    pub props: Option<Vec<ConfigProp>>,
}

impl VnStatConfigs {
    /// A configuration whose file lives at `path`; nothing is read yet.
    pub fn new(path: String) -> (r: VnStatConfigs)
        ensures
            r.path == path,
            r.props is None,
    {
        VnStatConfigs { path, props: None }
    }

    /// The configuration at the statistics tool's usual file path; nothing
    /// is read yet.
    pub fn default() -> (r: VnStatConfigs)
        ensures
            r.path@ == "/etc/vnstat.test.conf"@,
            r.props is None,
    {
        VnStatConfigs { path: String::from_str("/etc/vnstat.test.conf"), props: None }
    }

    /// Parses the file content handed in and stores the property list it
    /// names.
    pub fn read_props(&mut self, content: &str)
        requires
            wf_config(content@, 0),
        ensures
            final(self).path == old(self).path,
            final(self).props is Some,
            props_seq(final(self).props->0@) == props_from(content@, 0),
    {
        self.props = Some(parse_props(content));
    }

    /// Parses the file content handed in, stores the property list, and
    /// returns a copy of it. Well-formed content always yields the list.
    pub fn get_props(&mut self, content: &str) -> (r: Result<Vec<ConfigProp>, ConfigError>)
        requires
            wf_config(content@, 0),
        ensures
            final(self).path == old(self).path,
            r is Ok,
            props_seq(r->Ok_0@) == props_from(content@, 0),
            final(self).props is Some,
            final(self).props->0@ == r->Ok_0@,
    {
        self.read_props(content);
        match &self.props {
            Some(p) => Ok(clone_props(p)),
            None => Err(ConfigError::NoProps),
        }
    }
}

} // verus!
