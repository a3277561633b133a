//! The template engine: text with named placeholders between double braces,
//! filled in from a table of bindings.

use vstd::prelude::*;
use vstd::string::StringExecFns;
use crate::text::same_text;
use std::borrow::Cow;
use text_placeholder::Template;

verus! {

/// One placeholder name and the text that replaces it.
#[derive(Debug, Clone, PartialEq, Eq)]
struct Binding {
    name: String,
    value: String,
}

/// A table from placeholder names to replacement texts. A name that is bound
/// again takes the later text.
#[derive(Debug, Clone, PartialEq, Eq)]
pub struct Bindings {
    entries: Vec<Binding>,
}

/// The table that a list of bindings stands for, later entries winning.
spec fn table_of(entries: Seq<Binding>) -> Map<Seq<char>, Seq<char>>
    decreases entries.len(),
{
    if entries.len() == 0 {
        Map::empty()
    } else {
        table_of(entries.drop_last()).insert(entries.last().name@, entries.last().value@)
    }
}

/// Whether `s` holds two opening braces side by side, which is where a
/// placeholder begins.
pub open spec fn has_opening(s: Seq<char>) -> bool {
    exists|i: int| 0 <= i && i + 1 < s.len() && #[trigger] s[i] == '{' && s[i + 1] == '{'
}

/// Whether `s` holds two closing braces side by side, which is where a
/// placeholder ends.
pub open spec fn has_closing(s: Seq<char>) -> bool {
    exists|i: int| 0 <= i && i + 1 < s.len() && #[trigger] s[i] == '}' && s[i + 1] == '}'
}

/// Whether `s` holds no placeholder for want of a `{{` or of a `}}`.
pub open spec fn is_plain(s: Seq<char>) -> bool {
    !has_opening(s) || !has_closing(s)
}

/// A placeholder as it is written in a template.
pub open spec fn placeholder(name: Seq<char>) -> Seq<char> {
    seq!['{', '{'] + name + seq!['}', '}']
}

/// What stands in the output for the placeholder `name`: the bound text, or
/// the placeholder itself where the table has no such name.
pub open spec fn replacement_text(table: Map<Seq<char>, Seq<char>>, name: Seq<char>) -> Seq<char> {
    if table.contains_key(name) {
        table[name]
    } else {
        placeholder(name)
    }
}

/// A piece of a template: text to be kept, or the name of a placeholder,
/// which is what stands between `{{` and the next `}}` without the spaces
/// around it.
pub enum Piece {
    Text(Seq<char>),
    Name(Seq<char>),
}

/// The pieces that the engine cuts `template` into, in order.
pub uninterp spec fn tokenized(template: Seq<char>) -> Seq<Piece>;

/// What a piece gives in the output: text stays, a name gives way to its
/// replacement.
pub open spec fn piece_text(piece: Piece, table: Map<Seq<char>, Seq<char>>) -> Seq<char> {
    match piece {
        Piece::Text(text) => text,
        Piece::Name(name) => replacement_text(table, name),
    }
}

/// The pieces written out one after another. A replacement is written as it
/// is: what it holds is not looked at again.
pub open spec fn assembled(pieces: Seq<Piece>, table: Map<Seq<char>, Seq<char>>) -> Seq<char>
    decreases pieces.len(),
{
    if pieces.len() == 0 {
        Seq::empty()
    } else {
        assembled(pieces.drop_last(), table) + piece_text(pieces.last(), table)
    }
}

/// The rendering of `template` with `table`: a plain template is its own
/// rendering; any other is cut into pieces and assembled.
pub open spec fn rendering(template: Seq<char>, table: Map<Seq<char>, Seq<char>>) -> Seq<char> {
    if is_plain(template) {
        template
    } else {
        assembled(tokenized(template), table)
    }
}

/// Whether two tables give every name among `pieces` the same replacement.
pub open spec fn names_agree(
    pieces: Seq<Piece>,
    a: Map<Seq<char>, Seq<char>>,
    b: Map<Seq<char>, Seq<char>>,
) -> bool {
    forall|i: int|
        0 <= i < pieces.len() ==> piece_text(#[trigger] pieces[i], a) == piece_text(pieces[i], b)
}

impl View for Bindings {
    type V = Map<Seq<char>, Seq<char>>;

    closed spec fn view(&self) -> Map<Seq<char>, Seq<char>> {
        table_of(self.entries@)
    }
}

impl Bindings {
    /// The table that binds nothing.
    pub fn new() -> (r: Bindings)
        ensures
            r@ == Map::<Seq<char>, Seq<char>>::empty(),
    {
        Bindings { entries: Vec::new() }
    }

    /// Binds `name` to `value`, in place of what it was bound to before.
    pub fn insert(&mut self, name: &str, value: &str)
        ensures
            final(self)@ == old(self)@.insert(name@, value@),
    {
        self.entries.push(Binding { name: name.to_owned(), value: value.to_owned() });
        assert(self.entries@.drop_last() =~= old(self).entries@);
    }

    /// The text that `name` is bound to, if any.
    pub fn get(&self, name: &str) -> (r: Option<String>)
        ensures
            r is Some <==> self@.contains_key(name@),
            r is Some ==> r->Some_0@ == self@[name@],
    {
        let mut i: usize = self.entries.len();
        assert(self.entries@.take(i as int) =~= self.entries@);
        while i > 0
            invariant
                i <= self.entries@.len(),
                table_of(self.entries@).contains_key(name@) <==> table_of(
                    self.entries@.take(i as int),
                ).contains_key(name@),
                table_of(self.entries@).contains_key(name@) ==> table_of(self.entries@)[name@]
                    == table_of(self.entries@.take(i as int))[name@],
            decreases i,
        {
            assert(self.entries@.take(i as int).drop_last() =~= self.entries@.take(i - 1));
            assert(self.entries@.take(i as int).last() == self.entries@[i - 1]);
            i = i - 1;
            if same_text(self.entries[i].name.as_str(), name) {
                return Some(self.entries[i].value.clone());
            }
        }
        assert(self.entries@.take(0) =~= Seq::<Binding>::empty());
        None
    }

    /// Tells whether `name` is bound.
    pub fn contains(&self, name: &str) -> (r: bool)
        ensures
            r == self@.contains_key(name@),
    {
        self.get(name).is_some()
    }
}

/// The text that the engine is to write for the placeholder `name`.
pub fn replacement(bindings: &Bindings, name: &str) -> (r: String)
    ensures
        r@ == replacement_text(bindings@, name@),
{
    match bindings.get(name) {
        Some(value) => value,
        None => {
            proof {
                reveal_strlit("{{");
                reveal_strlit("}}");
                assert("{{"@ =~= seq!['{', '{']);
                assert("}}"@ =~= seq!['}', '}']);
            }
            String::from_str("{{").concat(name).concat("}}")
        },
    }
}

/// Runs the engine over `template`.
///
/// Trusted: this is `Template::new` followed by `Template::fill_with_function`
/// of text_placeholder. The first cuts the template at each `{{` and at the
/// `}}` that follows it, and trims the spaces around the name in between:
/// those pieces are `tokenized`. The second writes the pieces out in order,
/// text as it is and for each name what `replacement` answers; it cannot
/// fail, since `replacement` always answers. The contract adds what the
/// engine does with a plain template. Without a `{{` it finds a single piece
/// of text, or none in the empty template; without a `}}` it takes all that
/// follows the first `{{` for text as well. Either way it writes out the
/// template as it is.
#[verifier::external_body]
fn fill(template: &str, bindings: &Bindings) -> (r: String)
    ensures
        r@ == assembled(tokenized(template@), bindings@),
        is_plain(template@) ==> r@ == template@,
{
    Template::new(template)
        .fill_with_function(|name| Some(Cow::Owned(replacement(bindings, name))))
        .unwrap()
}

/// Renders `template`: every placeholder whose name is bound gives way to the
/// bound text, taken as it is; every other placeholder stays, written as
/// `{{name}}`; so does everything that is no placeholder. A name is what
/// stands between `{{` and the next `}}`, without the spaces around it.
pub fn render(template: &str, bindings: &Bindings) -> (r: String)
    ensures
        r@ == rendering(template@, bindings@),
        r@ == assembled(tokenized(template@), bindings@),
        is_plain(template@) ==> r@ == template@,
        template@.len() == 0 ==> r@.len() == 0,
{
    fill(template, bindings)
}

/// A template that lacks a `{{` or a `}}` is rendered as it is, whatever is
/// bound: text without braces, the empty template, and a `{{` that is never
/// closed.
pub proof fn lemma_plain_text_is_kept(template: Seq<char>, table: Map<Seq<char>, Seq<char>>)
    requires
        is_plain(template),
    ensures
        rendering(template, table) == template,
{
}

/// Tables that agree on every name among the pieces assemble them to the
/// same text.
pub proof fn lemma_assembled_reads_only_its_names(
    pieces: Seq<Piece>,
    a: Map<Seq<char>, Seq<char>>,
    b: Map<Seq<char>, Seq<char>>,
)
    requires
        names_agree(pieces, a, b),
    ensures
        assembled(pieces, a) == assembled(pieces, b),
    decreases pieces.len(),
{
    if pieces.len() > 0 {
        let front = pieces.drop_last();
        assert forall|i: int| 0 <= i < front.len() implies piece_text(#[trigger] front[i], a)
            == piece_text(front[i], b) by {
            assert(front[i] == pieces[i]);
        }
        lemma_assembled_reads_only_its_names(front, a, b);
        assert(piece_text(pieces[pieces.len() - 1], a) == piece_text(pieces[pieces.len() - 1], b));
    }
}

/// A rendering reads the bindings only at the names that the template holds:
/// two tables that give each of those names the same replacement give the
/// same rendering, whatever else they bind.
pub proof fn lemma_rendering_reads_only_its_names(
    template: Seq<char>,
    a: Map<Seq<char>, Seq<char>>,
    b: Map<Seq<char>, Seq<char>>,
)
    requires
        names_agree(tokenized(template), a, b),
    ensures
        rendering(template, a) == rendering(template, b),
{
    lemma_assembled_reads_only_its_names(tokenized(template), a, b);
}

/// Text is kept and a bound name is replaced verbatim: text around one
/// name is assembled to the same text around what the name is bound to, also
/// where that holds braces itself; without the binding, to the same text
/// around the placeholder.
pub proof fn lemma_bound_name_gives_its_value(
    before: Seq<char>,
    name: Seq<char>,
    after: Seq<char>,
    table: Map<Seq<char>, Seq<char>>,
)
    requires
        table.contains_key(name),
    ensures
        assembled(seq![Piece::Text(before), Piece::Name(name), Piece::Text(after)], table)
            == before + table[name] + after,
        assembled(
            seq![Piece::Text(before), Piece::Name(name), Piece::Text(after)],
            table.remove(name),
        ) == before + placeholder(name) + after,
{
    let pieces = seq![Piece::Text(before), Piece::Name(name), Piece::Text(after)];
    let two = seq![Piece::Text(before), Piece::Name(name)];
    let one = seq![Piece::Text(before)];
    assert(pieces.drop_last() =~= two);
    assert(two.drop_last() =~= one);
    assert(one.drop_last() =~= Seq::<Piece>::empty());
    reveal_with_fuel(assembled, 4);
    assert(assembled(pieces, table) =~= before + table[name] + after);
    assert(assembled(pieces, table.remove(name)) =~= before + placeholder(name) + after);
}

/// Rendering is idempotent wherever it leaves a plain text behind: such a
/// rendering is its own rendering, with the same bindings or any other.
pub proof fn lemma_settled_rendering_is_stable(
    template: Seq<char>,
    table: Map<Seq<char>, Seq<char>>,
    other: Map<Seq<char>, Seq<char>>,
)
    requires
        is_plain(rendering(template, table)),
    ensures
        rendering(rendering(template, table), other) == rendering(template, table),
{
}

} // verus!
