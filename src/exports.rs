//! The exports literal of a replica record: a set of tagged function names
//! followed by two boolean flags, for example
//! `ExportedFunctions { exported_functions: {Update("a"), Query("b"), System(CanisterInit)},
//! exports_heartbeat: false, exports_global_timer: false }`.
use vstd::prelude::*;
use crate::text::{
    chars_of, find, find_at, find_first, find_from, is_space, lemma_chars_deep_view,
    lemma_find_from_first, lemma_find_from_found, lemma_remove_all_absent, occurs_at, trim_end,
    trim_start,
    matches_at, remove_all, remove_every, same_chars, slice, split_chars, split_on, string_of,
    trim, trimmed,
};

verus! {

broadcast use lemma_chars_deep_view;

/// The functions that a record exports, grouped by kind, and its two flags.
#[derive(Debug, PartialEq, Clone)]
pub struct Exports {
    pub exported_query_functions: Vec<String>,
    pub exported_update_functions: Vec<String>,
    pub exported_system_functions: Vec<String>,
    pub exports_heartbeat: bool,
    pub exports_global_timer: bool,
}

/// What an `Exports` value holds, as sequences of names.
pub struct ExportsView {
    pub query: Seq<Seq<char>>,
    pub update: Seq<Seq<char>>,
    pub system: Seq<Seq<char>>,
    pub heartbeat: bool,
    pub global_timer: bool,
}

impl ExportsView {
    /// No functions of any kind, both flags off.
    pub open spec fn empty() -> ExportsView {
        ExportsView {
            query: Seq::empty(),
            update: Seq::empty(),
            system: Seq::empty(),
            heartbeat: false,
            global_timer: false,
        }
    }
}

impl View for Exports {
    type V = ExportsView;

    open spec fn view(&self) -> ExportsView {
        ExportsView {
            query: self.exported_query_functions.deep_view(),
            update: self.exported_update_functions.deep_view(),
            system: self.exported_system_functions.deep_view(),
            heartbeat: self.exports_heartbeat,
            global_timer: self.exports_global_timer,
        }
    }
}

impl Default for Exports {
    fn default() -> (r: Exports)
        ensures
            r@ == ExportsView::empty(),
    {
        let r = Exports {
            exported_query_functions: Vec::new(),
            exported_update_functions: Vec::new(),
            exported_system_functions: Vec::new(),
            exports_heartbeat: false,
            exports_global_timer: false,
        };
        assert(r@.query =~= Seq::<Seq<char>>::empty());
        assert(r@.update =~= Seq::<Seq<char>>::empty());
        assert(r@.system =~= Seq::<Seq<char>>::empty());
        r
    }
}

/// `kind` followed by an opening parenthesis: how an item of that kind starts.
pub open spec fn tag_prefix(kind: Seq<char>) -> Seq<char> {
    kind.push('(')
}

/// Whether `item` is tagged with `kind`, as in `Query("name")`.
pub open spec fn is_tagged(item: Seq<char>, kind: Seq<char>) -> bool {
    tag_prefix(kind).len() <= item.len() && item.subrange(0, tag_prefix(kind).len() as int)
        == tag_prefix(kind)
}

/// `s` without one closing parenthesis at its end, if it has one.
pub open spec fn drop_close(s: Seq<char>) -> Seq<char> {
    if s.len() > 0 && s.last() == ')' {
        s.drop_last()
    } else {
        s
    }
}

/// `s` without one leading and one trailing double quote, each if present.
pub open spec fn strip_quote_ends(s: Seq<char>) -> Seq<char> {
    let a = if s.len() > 0 && s[0] == '"' {
        s.drop_first()
    } else {
        s
    };
    if a.len() > 0 && a.last() == '"' {
        a.drop_last()
    } else {
        a
    }
}

/// The name inside an item tagged with `kind`: `Query("name")` gives `name`,
/// `System(CanisterInit)` gives `CanisterInit`.
pub open spec fn untag(item: Seq<char>, kind: Seq<char>) -> Seq<char> {
    strip_quote_ends(drop_close(item.subrange(kind.len() + 1 as int, item.len() as int)))
}

/// The names of the items tagged with `kind`, in the order of `items`.
pub open spec fn tagged_names(items: Seq<Seq<char>>, kind: Seq<char>) -> Seq<Seq<char>>
    decreases items.len(),
{
    if items.len() == 0 {
        Seq::empty()
    } else {
        let rest = tagged_names(items.drop_last(), kind);
        if is_tagged(items.last(), kind) {
            rest.push(untag(items.last(), kind))
        } else {
            rest
        }
    }
}

/// `s` without one pair of surrounding double quotes, if it has them.
pub open spec fn unquote(s: Seq<char>) -> Seq<char> {
    if s.len() >= 2 && s[0] == '"' && s.last() == '"' {
        s.subrange(1, s.len() - 1)
    } else {
        s
    }
}

/// One item of the function list, cleaned of surrounding blanks and quotes.
pub open spec fn clean_item(s: Seq<char>) -> Seq<char> {
    unquote(trim(s))
}

/// The marker that opens the function set; it is removed before anything else.
pub open spec fn functions_marker() -> Seq<char> {
    "exported_functions: {"@
}

pub open spec fn heartbeat_label() -> Seq<char> {
    "exports_heartbeat:"@
}

pub open spec fn global_timer_label() -> Seq<char> {
    "exports_global_timer:"@
}

/// The items between the first `{` of `t` and the first `}` after it; none
/// when either is missing.
pub open spec fn function_items(t: Seq<char>) -> Seq<Seq<char>> {
    match find(t, seq!['{']) {
        Some(a) => match find_from(t, seq!['}'], a + 1) {
            Some(b) => split_on(t.subrange(a + 1, b), ',').map_values(|p: Seq<char>| clean_item(p)),
            None => Seq::empty(),
        },
        None => Seq::empty(),
    }
}

/// The heartbeat flag: true only if the text between its label and the next
/// comma is `true`, blanks aside.
pub open spec fn heartbeat_flag(t: Seq<char>) -> bool {
    match find(t, heartbeat_label()) {
        Some(h) => {
            let rest = t.subrange(h + heartbeat_label().len(), t.len() as int);
            match find(rest, seq![',']) {
                Some(c) => trim(rest.subrange(0, c)) == "true"@,
                None => false,
            }
        },
        None => false,
    }
}

/// `s` without one closing brace at its end, if it has one.
pub open spec fn drop_close_brace(s: Seq<char>) -> Seq<char> {
    if s.len() > 0 && s.last() == '}' {
        s.drop_last()
    } else {
        s
    }
}

/// The global timer flag: false when its label is missing; otherwise the text
/// after the label, without blanks and one trailing closing brace, must be
/// `true` or `false`, and anything else is no flag at all.
pub open spec fn global_timer_flag(t: Seq<char>) -> Option<bool> {
    match find(t, global_timer_label()) {
        Some(g) => {
            let v = trim(
                drop_close_brace(trim(t.subrange(g + global_timer_label().len(), t.len() as int))),
            );
            if v == "true"@ {
                Some(true)
            } else if v == "false"@ {
                Some(false)
            } else {
                None
            }
        },
        None => Some(false),
    }
}

/// What the exports literal `s` describes; `None` when the global timer flag
/// is present but neither `true` nor `false`.
pub open spec fn parse_exports(s: Seq<char>) -> Option<ExportsView> {
    let t = remove_all(s, functions_marker());
    let items = function_items(t);
    match global_timer_flag(t) {
        Some(timer) => Some(
            ExportsView {
                query: tagged_names(items, "Query"@),
                update: tagged_names(items, "Update"@),
                system: tagged_names(items, "System"@),
                heartbeat: heartbeat_flag(t),
                global_timer: timer,
            },
        ),
        None => None,
    }
}

/// `s` without one closing parenthesis at its end, if it has one.
fn without_close(s: Vec<char>) -> (r: Vec<char>)
    ensures
        r@ == drop_close(s@),
{
    let n = s.len();
    if n > 0 && s[n - 1] == ')' {
        let r = slice(&s, 0, n - 1);
        assert(r@ =~= s@.drop_last());
        r
    } else {
        s
    }
}

/// `s` without one closing brace at its end, if it has one.
fn without_close_brace(s: Vec<char>) -> (r: Vec<char>)
    ensures
        r@ == drop_close_brace(s@),
{
    let n = s.len();
    if n > 0 && s[n - 1] == '}' {
        let r = slice(&s, 0, n - 1);
        assert(r@ =~= s@.drop_last());
        r
    } else {
        s
    }
}

/// `s` without one leading and one trailing double quote, each if present.
fn without_quote_ends(s: Vec<char>) -> (r: Vec<char>)
    ensures
        r@ == strip_quote_ends(s@),
{
    let n = s.len();
    let a = if n > 0 && s[0] == '"' {
        let a = slice(&s, 1, n);
        assert(a@ =~= s@.drop_first());
        a
    } else {
        s
    };
    let m = a.len();
    if m > 0 && a[m - 1] == '"' {
        let r = slice(&a, 0, m - 1);
        assert(r@ =~= a@.drop_last());
        r
    } else {
        a
    }
}

/// `s` without one pair of surrounding double quotes, if it has them.
fn without_quotes(s: Vec<char>) -> (r: Vec<char>)
    ensures
        r@ == unquote(s@),
{
    let n = s.len();
    if n >= 2 && s[0] == '"' && s[n - 1] == '"' {
        slice(&s, 1, n - 1)
    } else {
        s
    }
}

/// The names of the items tagged with the kind whose characters are `kind`.
fn names_tagged(items: &Vec<String>, kind: &Vec<char>) -> (r: Vec<String>)
    ensures
        r.deep_view() == tagged_names(items.deep_view(), kind@),
{
    let mut prefix = slice(kind, 0, kind.len());
    prefix.push('(');
    assert(prefix@ =~= tag_prefix(kind@));
    let mut r: Vec<String> = Vec::new();
    let mut i: usize = 0;
    assert(items.deep_view().subrange(0, 0) =~= Seq::<Seq<char>>::empty());
    while i < items.len()
        invariant
            i <= items.len(),
            prefix@ == tag_prefix(kind@),
            r.deep_view() == tagged_names(items.deep_view().subrange(0, i as int), kind@),
        decreases items.len() - i,
    {
        let ghost seen = items.deep_view().subrange(0, i + 1);
        assert(seen.drop_last() =~= items.deep_view().subrange(0, i as int));
        assert(seen.last() == items@[i as int]@);
        let item = chars_of(items[i].as_str());
        if matches_at(&item, &prefix, 0) {
            assert(item@.subrange(0, prefix@.len() as int) == prefix@);
            let inner = slice(&item, prefix.len(), item.len());
            let name = without_quote_ends(without_close(inner));
            let ghost before = r.deep_view();
            r.push(string_of(&name));
            assert(r.deep_view() =~= before.push(untag(item@, kind@)));
        } else {
            assert(!is_tagged(item@, kind@));
        }
        i = i + 1;
    }
    assert(items.deep_view().subrange(0, i as int) =~= items.deep_view());
    r
}

/// The cleaned items of the function list of `t`.
fn function_list(t: &Vec<char>) -> (r: Vec<String>)
    ensures
        r.deep_view() == function_items(t@),
{
    let open_brace = vec!['{'];
    let close_brace = vec!['}'];
    assert(open_brace@ =~= seq!['{']);
    assert(close_brace@ =~= seq!['}']);
    let mut r: Vec<String> = Vec::new();
    let n = t.len();
    let a = match find_first(t, &open_brace) {
        Some(a) => a,
        None => {
            assert(r.deep_view() =~= Seq::<Seq<char>>::empty());
            return r;
        },
    };
    proof {
        lemma_find_from_found(t@, seq!['{'], 0);
    }
    let b = match find_at(t, &close_brace, a + 1) {
        Some(b) => b,
        None => {
            assert(r.deep_view() =~= Seq::<Seq<char>>::empty());
            return r;
        },
    };
    proof {
        lemma_find_from_found(t@, seq!['}'], a + 1);
    }
    let list = slice(t, a + 1, b);
    assert(b <= n);
    let pieces = split_chars(&list, ',');
    let ghost target = split_on(list@, ',').map_values(|p: Seq<char>| clean_item(p));
    let mut i: usize = 0;
    while i < pieces.len()
        invariant
            i <= pieces.len(),
            pieces.deep_view() == split_on(list@, ','),
            target == split_on(list@, ',').map_values(|p: Seq<char>| clean_item(p)),
            r.deep_view() == target.subrange(0, i as int),
        decreases pieces.len() - i,
    {
        let item = without_quotes(trimmed(&pieces[i]));
        let ghost before = r.deep_view();
        assert(pieces.deep_view()[i as int] == pieces@[i as int]@);
        assert(item@ == target[i as int]);
        r.push(string_of(&item));
        assert(r.deep_view() =~= before.push(item@));
        assert(target.subrange(0, i + 1) =~= target.subrange(0, i as int).push(target[i as int]));
        i = i + 1;
    }
    assert(target.subrange(0, i as int) =~= target);
    r
}

/// The heartbeat flag of `t`.
fn heartbeat_of(t: &Vec<char>) -> (r: bool)
    ensures
        r == heartbeat_flag(t@),
{
    let label = chars_of("exports_heartbeat:");
    let n = t.len();
    let comma = vec![','];
    assert(comma@ =~= seq![',']);
    match find_first(t, &label) {
        Some(h) => {
            proof {
                lemma_find_from_found(t@, heartbeat_label(), 0);
            }
            let rest = slice(t, h + label.len(), n);
            match find_first(&rest, &comma) {
                Some(c) => {
                    proof {
                        lemma_find_from_found(rest@, seq![','], 0);
                    }
                    let v = trimmed(&slice(&rest, 0, c));
                    same_chars(&v, &chars_of("true"))
                },
                None => false,
            }
        },
        None => false,
    }
}

/// The global timer flag of `t`, if it is well formed.
fn global_timer_of(t: &Vec<char>) -> (r: Option<bool>)
    ensures
        r == global_timer_flag(t@),
{
    let label = chars_of("exports_global_timer:");
    let n = t.len();
    match find_first(t, &label) {
        Some(g) => {
            proof {
                lemma_find_from_found(t@, global_timer_label(), 0);
            }
            let rest = slice(t, g + label.len(), n);
            let v = trimmed(&without_close_brace(trimmed(&rest)));
            if same_chars(&v, &chars_of("true")) {
                Some(true)
            } else if same_chars(&v, &chars_of("false")) {
                Some(false)
            } else {
                None
            }
        },
        None => Some(false),
    }
}

/// Grouping by kind keeps the order of the literal: the names of a list made
/// of two parts are the names of the first part followed by those of the second.
pub proof fn lemma_tagged_names_keep_order(a: Seq<Seq<char>>, b: Seq<Seq<char>>, kind: Seq<char>)
    ensures
        tagged_names(a + b, kind) == tagged_names(a, kind) + tagged_names(b, kind),
    decreases b.len(),
{
    if b.len() == 0 {
        assert(a + b =~= a);
        assert(tagged_names(a, kind) + tagged_names(b, kind) =~= tagged_names(a, kind));
    } else {
        lemma_tagged_names_keep_order(a, b.drop_last(), kind);
        assert((a + b).drop_last() =~= a + b.drop_last());
        assert((a + b).last() == b.last());
        let front = tagged_names(a, kind);
        let back = tagged_names(b.drop_last(), kind);
        if is_tagged(b.last(), kind) {
            assert(front + back.push(untag(b.last(), kind)) =~= (front + back).push(
                untag(b.last(), kind),
            ));
        }
    }
}

/// The empty text reads as no functions and both flags off.
pub proof fn lemma_parse_empty()
    ensures
        parse_exports(Seq::empty()) == Some(ExportsView::empty()),
{
    reveal_strlit("exported_functions: {");
    reveal_strlit("exports_heartbeat:");
    reveal_strlit("exports_global_timer:");
    let e = Seq::<char>::empty();
    assert(remove_all(e, functions_marker()) == e);
    assert(find(e, seq!['{']).is_none());
    assert(find(e, heartbeat_label()).is_none());
    assert(find(e, global_timer_label()).is_none());
    assert(function_items(e) == Seq::<Seq<char>>::empty());
}

/// The global timer value `maybe` is no flag: an exports text that ends in
/// `exports_global_timer: maybe`, with no earlier global timer label and no
/// function-set marker, does not read.
pub proof fn lemma_global_timer_maybe_fails(p: Seq<char>)
    requires
        forall|i: int|
            0 <= i < (p + "exports_global_timer: maybe"@).len() ==> !occurs_at(
                p + "exports_global_timer: maybe"@,
                functions_marker(),
                i,
            ),
        forall|i: int|
            0 <= i < p.len() ==> !occurs_at(
                p + "exports_global_timer: maybe"@,
                global_timer_label(),
                i,
            ),
    ensures
        parse_exports(p + "exports_global_timer: maybe"@).is_none(),
{
    reveal_strlit("exports_global_timer: maybe");
    reveal_strlit("exports_global_timer:");
    reveal_strlit("true");
    reveal_strlit("false");
    let tail = "exports_global_timer: maybe"@;
    let s = p + tail;
    lemma_remove_all_absent(s, functions_marker());
    let k = p.len() as int;
    assert(s.subrange(k, k + 21) =~= global_timer_label());
    lemma_find_from_first(s, global_timer_label(), 0, k);
    let rest = s.subrange(k + 21, s.len() as int);
    let maybe = seq!['m', 'a', 'y', 'b', 'e'];
    assert(rest =~= seq![' '].add(maybe));
    assert(is_space(' '));
    assert(!is_space('m'));
    assert(!is_space('e'));
    assert(rest.drop_first() =~= maybe);
    assert(trim_start(maybe) == maybe);
    assert(trim_start(rest) == maybe);
    assert(trim_end(maybe) == maybe);
    assert(trim(rest) == maybe);
    assert(drop_close_brace(maybe) == maybe);
    assert(trim(maybe) == maybe);
    assert(maybe != "true"@) by {
        assert(maybe.len() != "true"@.len());
    }
    assert(maybe != "false"@) by {
        assert(maybe[0] != "false"@[0]);
    }
}

impl Exports {
    /// Reads an exports literal. Only a global timer flag that is present but
    /// neither `true` nor `false` makes it fail; every other gap leaves the
    /// matching part empty or false.
    pub fn from_str(s: String) -> (r: Option<Exports>)
        ensures
            match r {
                Some(e) => parse_exports(s@) == Some(e@),
                None => parse_exports(s@).is_none(),
            },
    {
        let chars = chars_of(s.as_str());
        let t = remove_every(&chars, &chars_of("exported_functions: {"));
        let items = function_list(&t);
        let timer = match global_timer_of(&t) {
            Some(g) => g,
            None => return None,
        };
        Some(
            Exports {
                exported_query_functions: names_tagged(&items, &chars_of("Query")),
                exported_update_functions: names_tagged(&items, &chars_of("Update")),
                exported_system_functions: names_tagged(&items, &chars_of("System")),
                exports_heartbeat: heartbeat_of(&t),
                exports_global_timer: timer,
            },
        )
    }

    /// The names of the items of `exported_functions` that are tagged with
    /// `kind` (`Query`, `Update` or `System`), in their order: `Query("name")`
    /// gives `name`, `System(CanisterInit)` gives `CanisterInit`.
    pub fn get_specific_functions(exported_functions: Vec<String>, kind: String) -> (r: Vec<
        String,
    >)
        ensures
            r.deep_view() == tagged_names(exported_functions.deep_view(), kind@),
    {
        let k = chars_of(kind.as_str());
        names_tagged(&exported_functions, &k)
    }
}

} // verus!
