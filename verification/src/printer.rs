use vstd::prelude::*;
use vstd::utf8::encode_utf8;
use vstd::slice::spec_slice_len;
use crate::framed::FramedTextBox;
use crate::ring::{ring_capacity, ring_items, ring_new, ring_newest_first, ring_push_overwrite, StringRing};

verus! {

/// Length in bytes of the UTF-8 encoding of `s`.
pub open spec fn byte_len(s: Seq<char>) -> nat {
    encode_utf8(s).len()
}

/// The marker in front of every logged line.
pub open spec fn prompt() -> Seq<char> {
    seq!['>', ' ']
}

/// Number of rows a logged line is charged for: one more than the number of
/// whole rows its bytes fill.
pub open spec fn entry_cost(s: Seq<char>, line_length: nat) -> int {
    byte_len(s) as int / line_length as int + 1
}

/// The lines that fit into `budget` rows, newest first: each line behind
/// the prompt and followed by a line break, for as long as rows are left.
pub open spec fn listing(entries: Seq<Seq<char>>, budget: int, line_length: nat) -> Seq<char>
    decreases entries.len(),
{
    if entries.len() == 0 || budget <= 0 {
        Seq::<char>::empty()
    } else {
        prompt() + entries[0] + seq!['\n'] + listing(
            entries.drop_first(),
            budget - entry_cost(entries[0], line_length),
            line_length,
        )
    }
}

/// No listed line is charged for more rows than are left when it is listed.
pub open spec fn listing_fits(entries: Seq<Seq<char>>, budget: int, line_length: nat) -> bool
    decreases entries.len(),
{
    if entries.len() == 0 || budget <= 0 {
        true
    } else {
        entry_cost(entries[0], line_length) <= budget && listing_fits(
            entries.drop_first(),
            budget - entry_cost(entries[0], line_length),
            line_length,
        )
    }
}

/// Rows charged for the lines that `listing` shows.
pub open spec fn listed_cost(entries: Seq<Seq<char>>, budget: int, line_length: nat) -> int
    decreases entries.len(),
{
    if entries.len() == 0 || budget <= 0 {
        0
    } else {
        entry_cost(entries[0], line_length) + listed_cost(
            entries.drop_first(),
            budget - entry_cost(entries[0], line_length),
            line_length,
        )
    }
}

/// `history` with `item` appended, its oldest entry dropped when it already
/// holds `capacity` entries.
pub open spec fn bounded_push(history: Seq<Seq<char>>, capacity: nat, item: Seq<char>) -> Seq<Seq<char>> {
    (if history.len() >= capacity { history.drop_first() } else { history }).push(item)
}

/// The entries of `history`, newest first.
pub open spec fn newest_first(history: Seq<Seq<char>>) -> Seq<Seq<char>> {
    Seq::new(history.len(), |i: int| history[history.len() - 1 - i])
}

/// Rows left for the history after a message of `len` bytes.
pub open spec fn first_budget(len: nat, lines: nat, line_length: nat) -> int {
    lines - len as int / line_length as int + 1
}

/// What the box shows after `input` is logged with `history` as the history
/// that results: the prompt and the message, then the newest entries of the
/// history, the message itself first, as far as the rows left allow.
pub open spec fn rendered(history: Seq<Seq<char>>, input: Seq<char>, lines: nat, line_length: nat) -> Seq<char> {
    prompt() + input + listing(newest_first(history), first_budget(byte_len(input), lines, line_length), line_length)
}

/// Every entry's UTF-8 encoding is short enough for its length to be held
/// by a `usize`.
pub open spec fn fits_usize_entries(entries: Seq<Seq<char>>) -> bool {
    forall|j: int| 0 <= j < entries.len() ==> #[trigger] byte_len(entries[j]) <= usize::MAX
}

/// The state of a printer.
pub struct PrinterView {
    pub field: FramedTextBox,
    pub history: Seq<Seq<char>>,
    pub line_length: nat,
    pub lines: nat,
    pub shown: Seq<char>,
}

/// Logging `input` stays within the arithmetic of the row budget: lines
/// have a positive length, the message takes no more rows than the box has,
/// and no listed line is charged for more rows than are left.
pub open spec fn txt_ok(p: PrinterView, input: Seq<char>) -> bool {
    &&& p.line_length > 0
    &&& byte_len(input) as int / p.line_length as int <= p.lines
    &&& first_budget(byte_len(input), p.lines, p.line_length) <= usize::MAX
    &&& listing_fits(
        newest_first(bounded_push(p.history, p.lines, input)),
        first_budget(byte_len(input), p.lines, p.line_length),
        p.line_length,
    )
}

/// Writes log messages into a framed text box, newest first, keeping as many
/// past messages as the box has rows.
pub struct TextBoxPrinter {
    txt_field: FramedTextBox,
    str_buf: StringRing,
    line_length: usize,
    lines: usize,
    disp_str: String,
}

impl View for TextBoxPrinter {
    type V = PrinterView;

    closed spec fn view(&self) -> PrinterView {
        PrinterView {
            field: self.txt_field,
            history: ring_items(self.str_buf),
            line_length: self.line_length as nat,
            lines: self.lines as nat,
            shown: self.disp_str@,
        }
    }
}

impl TextBoxPrinter {
    #[verifier::type_invariant]
    spec fn well_formed(self) -> bool {
        &&& ring_capacity(self.str_buf) == self.lines
        &&& 0 < self.lines <= u32::MAX
        &&& ring_items(self.str_buf).len() <= self.lines
        &&& fits_usize_entries(ring_items(self.str_buf))
    }

    /// A printer for `txt_field`: a row is as wide as the box divided by the
    /// width of a character plus its spacing, and as high as a character
    /// plus the paragraph spacing; the history holds one entry per row.
    pub fn new(txt_field: FramedTextBox) -> (p: TextBoxPrinter)
        requires
            txt_field.text_box.character_style.font.character_size.width
                + txt_field.text_box.character_style.font.character_spacing <= u32::MAX,
            txt_field.text_box.character_style.font.character_size.height
                + txt_field.text_box.style.paragraph_spacing <= u32::MAX,
            txt_field.text_box.character_style.font.character_size.width
                + txt_field.text_box.character_style.font.character_spacing > 0,
            txt_field.text_box.character_style.font.character_size.height
                + txt_field.text_box.style.paragraph_spacing > 0,
            txt_field.text_box.bounds.size.height >= txt_field.text_box.character_style.font.character_size.height
                + txt_field.text_box.style.paragraph_spacing,
        ensures
            p@.field == txt_field,
            p@.history == Seq::<Seq<char>>::empty(),
            p@.line_length == txt_field.text_box.bounds.size.width as int / (
                txt_field.text_box.character_style.font.character_size.width
                + txt_field.text_box.character_style.font.character_spacing) as int,
            p@.lines == txt_field.text_box.bounds.size.height as int / (
                txt_field.text_box.character_style.font.character_size.height
                + txt_field.text_box.style.paragraph_spacing) as int,
            p@.lines > 0,
            p@.shown == Seq::<char>::empty(),
    {
        let char_width = txt_field.text_box.character_style.font.character_size.width
            + txt_field.text_box.character_style.font.character_spacing;
        let char_hight = txt_field.text_box.character_style.font.character_size.height
            + txt_field.text_box.style.paragraph_spacing;
        let bounds = txt_field.text_box.bounding_box();
        let line_length = (bounds.size.width / char_width) as usize;
        assert(bounds.size.height / char_hight >= 1) by (nonlinear_arith)
            requires
                bounds.size.height >= char_hight,
                char_hight > 0,
        ;
        let lines = (bounds.size.height / char_hight) as usize;
        TextBoxPrinter {
            txt_field,
            str_buf: ring_new(lines),
            line_length,
            lines,
            disp_str: String::new(),
        }
    }

    /// Logs `input_str`: the message becomes the newest history entry (the
    /// oldest one leaves when the history is full) and the box's text becomes
    /// the prompt and the message followed by the newest entries, the message
    /// first, each behind the prompt and on a line of its own, as long as
    /// rows are left. The returned printer is the one to draw.
    pub fn txt(self, input_str: &str) -> (p: TextBoxPrinter)
        requires
            txt_ok(self@, input_str@),
        ensures
            p@.history == bounded_push(self@.history, self@.lines, input_str@),
            p@.history.len() <= p@.lines,
            p@.line_length == self@.line_length,
            p@.lines == self@.lines,
            p@.shown == rendered(p@.history, input_str@, self@.lines, self@.line_length),
            p@.field.frame == self@.field.frame,
            p@.field.text_box.bounds == self@.field.text_box.bounds,
            p@.field.text_box.character_style == self@.field.text_box.character_style,
            p@.field.text_box.style == self@.field.text_box.style,
            p@.field.text_box.text@ == p@.shown,
    {
        proof {
            use_type_invariant(&self);
            reveal_strlit("> ");
            reveal_strlit("\n");
        }
        let TextBoxPrinter { mut txt_field, mut str_buf, line_length, lines, disp_str: _ } = self;
        let len = input_str.len();
        let input_bytes = input_str.as_bytes();
        assert(input_bytes@.len() == spec_slice_len(input_bytes));
        assert(len == byte_len(input_str@));
        let mut disp_str = "> ".to_owned();
        assert(disp_str@ =~= prompt());
        disp_str.append(input_str);
        ring_push_overwrite(&mut str_buf, input_str.to_owned());
        let mut line_budget: usize = lines - (len / line_length) + 1;
        let items = ring_newest_first(&str_buf);
        let ghost entries = newest_first(ring_items(str_buf));
        assert(fits_usize_entries(entries));
        let ghost target = prompt() + input_str@ + listing(entries, line_budget as int, line_length as nat);
        let mut i: usize = 0;
        assert(entries.skip(0) =~= entries);
        while i < items.len() && line_budget > 0
            invariant
                0 <= i <= items@.len(),
                items@.len() == entries.len(),
                forall|j: int| 0 <= j < entries.len() ==> #[trigger] items@[j]@ == entries[j],
                line_length > 0,
                fits_usize_entries(entries),
                disp_str@ + listing(entries.skip(i as int), line_budget as int, line_length as nat) == target,
                listing_fits(entries.skip(i as int), line_budget as int, line_length as nat),
            decreases items@.len() - i,
        {
            let s = &items[i];
            let ghost rest = entries.skip(i as int);
            let ghost before = disp_str@;
            proof {
                reveal_strlit("> ");
                reveal_strlit("\n");
            }
            assert(rest[0] == s@);
            assert(rest.drop_first() =~= entries.skip(i + 1));
            disp_str.append("> ");
            disp_str.append(s.as_str());
            disp_str.append("\n");
            assert(disp_str@ =~= before + prompt() + s@ + seq!['\n']);
            let s_len = s.as_str().len();
            assert(s_len == byte_len(s@));
            let cost = s_len / line_length + 1;
            assert(cost == entry_cost(rest[0], line_length as nat));
            line_budget = line_budget - cost;
            assert(disp_str@ + listing(entries.skip(i + 1), line_budget as int, line_length as nat)
                =~= before + listing(rest, (line_budget + cost) as int, line_length as nat));
            i = i + 1;
        }
        assert(listing(entries.skip(i as int), line_budget as int, line_length as nat) =~= Seq::<char>::empty());
        txt_field.text_box.text = disp_str.clone();
        TextBoxPrinter { txt_field, str_buf, line_length, lines, disp_str }
    }

    /// Whether logging `input_str` stays within the arithmetic of the row
    /// budget, that is whether `txt` may be called with it.
    pub fn can_log(&self, input_str: &str) -> (ok: bool)
        ensures
            ok == txt_ok(self@, input_str@),
    {
        proof {
            use_type_invariant(self);
        }
        if self.line_length == 0 {
            return false;
        }
        let line_length = self.line_length;
        let len = input_str.len();
        let input_bytes = input_str.as_bytes();
        assert(input_bytes@.len() == spec_slice_len(input_bytes));
        let k = len / line_length;
        if k > self.lines {
            return false;
        }
        if self.lines - k == usize::MAX {
            return false;
        }
        let mut budget: usize = self.lines - k + 1;
        let ghost history = ring_items(self.str_buf);
        let ghost entries = newest_first(bounded_push(history, self.lines as nat, input_str@));
        let ghost b0 = budget as int;
        assert(entries[0] == input_str@);
        assert(entries.drop_first() =~= entries.skip(1));
        if k >= budget {
            return false;
        }
        budget = budget - k - 1;
        let items = ring_newest_first(&self.str_buf);
        let m = if items.len() == self.lines { items.len() - 1 } else { items.len() };
        assert(entries.len() == m + 1);
        assert forall|i: int| 0 <= i < m implies #[trigger] items@[i]@ == entries[i + 1] by {
            if history.len() >= self.lines {
                assert(history.drop_first()[history.len() - 2 - i] == history[history.len() - 1 - i]);
            }
        }
        assert(txt_ok(self@, input_str@) == listing_fits(entries, b0, line_length as nat));
        let mut j: usize = 0;
        while j < m && budget > 0
            invariant
                txt_ok(self@, input_str@) == listing_fits(entries, b0, line_length as nat),
                j <= m,
                m <= items@.len(),
                entries.len() == m + 1,
                forall|i: int| 0 <= i < m ==> #[trigger] items@[i]@ == entries[i + 1],
                line_length > 0,
                fits_usize_entries(history),
                items@.len() == history.len(),
                forall|i: int| 0 <= i < items@.len() ==> #[trigger] items@[i]@ == history[history.len() - 1 - i],
                listing_fits(entries, b0, line_length as nat) == listing_fits(
                    entries.skip(j + 1),
                    budget as int,
                    line_length as nat,
                ),
            decreases m - j,
        {
            let s_len = items[j].as_str().len();
            assert(byte_len(history[history.len() - 1 - j]) <= usize::MAX);
            assert(s_len == byte_len(entries[j + 1]));
            assert(entries.skip(j + 1).drop_first() =~= entries.skip(j + 2));
            assert(entries.skip(j + 1)[0] == entries[j + 1]);
            let c = s_len / line_length;
            assert(entry_cost(entries.skip(j + 1)[0], line_length as nat) == c + 1);
            assert(entries.skip(j + 1).len() > 0);
            if c >= budget {
                return false;
            }
            budget = budget - c - 1;
            j = j + 1;
        }
        true
    }

    /// The framed text box, showing the text rendered by the last `txt`.
    pub fn text_field(&self) -> (f: &FramedTextBox)
        ensures
            *f == self@.field,
    {
        &self.txt_field
    }
}

/// The history after logging `inputs` one by one into an empty history of
/// the given capacity.
pub open spec fn history_after(inputs: Seq<Seq<char>>, capacity: nat) -> Seq<Seq<char>>
    decreases inputs.len(),
{
    if inputs.len() == 0 {
        Seq::<Seq<char>>::empty()
    } else {
        bounded_push(history_after(inputs.drop_last(), capacity), capacity, inputs.last())
    }
}

/// Logging a message into a history that is not over capacity appends the
/// message as the newest entry and drops exactly the oldest entries beyond
/// the capacity: the result is the last (at most `capacity`) entries of the
/// history followed by the message.
pub proof fn lemma_bounded_push_keeps_newest(history: Seq<Seq<char>>, capacity: nat, item: Seq<char>)
    requires
        capacity > 0,
        history.len() <= capacity,
    ensures
        bounded_push(history, capacity, item).len() <= capacity,
        bounded_push(history, capacity, item).last() == item,
        bounded_push(history, capacity, item) == history.push(item).skip(
            if history.len() + 1 > capacity { history.len() + 1 - capacity } else { 0 },
        ),
{
    assert(bounded_push(history, capacity, item) =~= history.push(item).skip(
        if history.len() + 1 > capacity { history.len() + 1 - capacity } else { 0 },
    ));
}

/// A printer that logged the messages `inputs` into an empty history holds
/// exactly the last `capacity` of them (all of them when there are fewer),
/// oldest first.
pub proof fn lemma_history_is_last_messages(inputs: Seq<Seq<char>>, capacity: nat)
    requires
        capacity > 0,
    ensures
        history_after(inputs, capacity) == inputs.skip(
            if inputs.len() > capacity { inputs.len() - capacity } else { 0 },
        ),
    decreases inputs.len(),
{
    if inputs.len() > 0 {
        let prefix = inputs.drop_last();
        lemma_history_is_last_messages(prefix, capacity);
        let h = history_after(prefix, capacity);
        lemma_bounded_push_keeps_newest(h, capacity, inputs.last());
        assert(h.push(inputs.last()).skip(if h.len() + 1 > capacity { h.len() + 1 - capacity } else { 0 })
            =~= inputs.skip(if inputs.len() > capacity { inputs.len() - capacity } else { 0 }));
    } else {
        assert(inputs.skip(0) =~= inputs);
    }
}

/// The rows charged for the listed lines never exceed the budget they were
/// listed within.
pub proof fn lemma_listing_within_budget(entries: Seq<Seq<char>>, budget: int, line_length: nat)
    requires
        budget >= 0,
        line_length > 0,
        listing_fits(entries, budget, line_length),
    ensures
        0 <= listed_cost(entries, budget, line_length) <= budget,
    decreases entries.len(),
{
    if entries.len() > 0 && budget > 0 {
        lemma_listing_within_budget(entries.drop_first(), budget - entry_cost(entries[0], line_length), line_length);
    }
}

/// What the box shows after logging a message opens with the message twice:
/// once behind the prompt, and once more as the newest listed entry, on a
/// line of its own; the older entries follow within the rows left.
pub proof fn lemma_rendered_opens_with_message(p: PrinterView, input: Seq<char>)
    requires
        txt_ok(p, input),
        p.lines > 0,
        p.history.len() <= p.lines,
    ensures
        ({
            let h = bounded_push(p.history, p.lines, input);
            let budget = first_budget(byte_len(input), p.lines, p.line_length);
            rendered(h, input, p.lines, p.line_length) == prompt() + input + prompt() + input + seq!['\n']
                + listing(newest_first(h).drop_first(), budget - entry_cost(input, p.line_length), p.line_length)
        }),
{
    let h = bounded_push(p.history, p.lines, input);
    assert(newest_first(h)[0] == input);
    assert(newest_first(h).len() > 0);
    let budget = first_budget(byte_len(input), p.lines, p.line_length);
    assert(budget > 0);
    let rest = listing(newest_first(h).drop_first(), budget - entry_cost(input, p.line_length), p.line_length);
    assert(prompt() + input + (prompt() + input + seq!['\n'] + rest)
        =~= prompt() + input + prompt() + input + seq!['\n'] + rest);
}

/// Rows that the entries `es` take when each is charged one row more than
/// the number of whole rows of `line_length` bytes its encoding fills.
pub open spec fn rows_needed(es: Seq<Seq<char>>, line_length: nat) -> int
    decreases es.len(),
{
    if es.len() == 0 {
        0
    } else {
        byte_len(es[0]) as int / line_length as int + 1 + rows_needed(es.drop_first(), line_length)
    }
}

/// The entries `es`, each behind the prompt and on a line of its own.
pub open spec fn formatted(es: Seq<Seq<char>>) -> Seq<char>
    decreases es.len(),
{
    if es.len() == 0 {
        Seq::<char>::empty()
    } else {
        prompt() + es[0] + seq!['\n'] + formatted(es.drop_first())
    }
}

/// Every entry that is started while rows are left ends within `budget`
/// rows.
pub open spec fn all_listed_fit(es: Seq<Seq<char>>, budget: int, line_length: nat) -> bool {
    forall|k: int|
        0 <= k < es.len() && #[trigger] rows_needed(es.take(k), line_length) < budget
            ==> rows_needed(es.take(k + 1), line_length) <= budget
}

/// Rows are never negative.
pub proof fn lemma_rows_needed_nonneg(es: Seq<Seq<char>>, line_length: nat)
    requires
        line_length > 0,
    ensures
        rows_needed(es, line_length) >= 0,
    decreases es.len(),
{
    if es.len() > 0 {
        lemma_rows_needed_nonneg(es.drop_first(), line_length);
    }
}

/// The rows of the first `k + 1` entries are those of the first entry and
/// of the next `k`.
proof fn lemma_rows_needed_cons(es: Seq<Seq<char>>, k: int, line_length: nat)
    requires
        0 <= k < es.len(),
    ensures
        rows_needed(es.take(k + 1), line_length) == byte_len(es[0]) as int / line_length as int + 1
            + rows_needed(es.drop_first().take(k), line_length),
{
    assert(es.take(k + 1).drop_first() =~= es.drop_first().take(k));
}

/// The listing shows the first `n` entries, where `n` counts the entries
/// that are started while rows are left: the entries before the `n`th all
/// start with rows left, and the `n`th does not (or there is none). Each
/// entry of `b` bytes is charged `b / line_length + 1` rows.
pub proof fn lemma_listing_shows_prefix(entries: Seq<Seq<char>>, budget: int, line_length: nat, n: int)
    requires
        line_length > 0,
        0 <= n <= entries.len(),
        forall|k: int| 0 <= k < n ==> #[trigger] rows_needed(entries.take(k), line_length) < budget,
        n == entries.len() || rows_needed(entries.take(n), line_length) >= budget,
    ensures
        listing(entries, budget, line_length) == formatted(entries.take(n)),
    decreases entries.len(),
{
    if n == 0 {
        assert(entries.take(0) =~= Seq::<Seq<char>>::empty());
        assert(rows_needed(entries.take(0), line_length) == 0);
    } else {
        assert(rows_needed(entries.take(0), line_length) < budget);
        assert(entries.take(0) =~= Seq::<Seq<char>>::empty());
        let rest = entries.drop_first();
        let c = byte_len(entries[0]) as int / line_length as int + 1;
        assert forall|k: int| 0 <= k < n - 1 implies #[trigger] rows_needed(rest.take(k), line_length) < budget - c by {
            lemma_rows_needed_cons(entries, k, line_length);
            assert(rows_needed(entries.take(k + 1), line_length) < budget);
        }
        if n < entries.len() {
            lemma_rows_needed_cons(entries, n - 1, line_length);
        }
        lemma_listing_shows_prefix(rest, budget - c, line_length, n - 1);
        assert(entries.take(n).drop_first() =~= rest.take(n - 1));
        assert(entries.take(n)[0] == entries[0]);
    }
}

/// An empty budget is never exceeded by an entry started with rows left.
proof fn lemma_all_listed_fit_empty_budget(entries: Seq<Seq<char>>, budget: int, line_length: nat)
    requires
        line_length > 0,
        budget <= 0,
    ensures
        all_listed_fit(entries, budget, line_length),
{
    assert forall|k: int|
        0 <= k < entries.len() && #[trigger] rows_needed(entries.take(k), line_length) < budget
            implies rows_needed(entries.take(k + 1), line_length) <= budget by {
        lemma_rows_needed_nonneg(entries.take(k), line_length);
    }
}

/// Entries fitting a budget: the first fits, and the rest fit what it
/// leaves.
proof fn lemma_all_listed_fit_split(entries: Seq<Seq<char>>, budget: int, line_length: nat)
    requires
        line_length > 0,
        budget > 0,
        entries.len() > 0,
        all_listed_fit(entries, budget, line_length),
    ensures
        byte_len(entries[0]) as int / line_length as int + 1 <= budget,
        all_listed_fit(entries.drop_first(), budget - (byte_len(entries[0]) as int / line_length as int + 1), line_length),
{
    let rest = entries.drop_first();
    let c = byte_len(entries[0]) as int / line_length as int + 1;
    assert(entries.take(0) =~= Seq::<Seq<char>>::empty());
    assert(rows_needed(entries.take(0), line_length) == 0);
    lemma_rows_needed_cons(entries, 0, line_length);
    assert(rest.take(0) =~= Seq::<Seq<char>>::empty());
    assert(rows_needed(rest.take(0), line_length) == 0);
    assert forall|k: int|
        0 <= k < rest.len() && #[trigger] rows_needed(rest.take(k), line_length) < budget - c
            implies rows_needed(rest.take(k + 1), line_length) <= budget - c by {
        lemma_rows_needed_cons(entries, k, line_length);
        lemma_rows_needed_cons(entries, k + 1, line_length);
        assert(rows_needed(entries.take(k + 1), line_length) < budget);
    }
}

/// Entries fit a budget when the first fits and the rest fit what it
/// leaves.
proof fn lemma_all_listed_fit_join(entries: Seq<Seq<char>>, budget: int, line_length: nat)
    requires
        line_length > 0,
        entries.len() > 0,
        byte_len(entries[0]) as int / line_length as int + 1 <= budget,
        all_listed_fit(entries.drop_first(), budget - (byte_len(entries[0]) as int / line_length as int + 1), line_length),
    ensures
        all_listed_fit(entries, budget, line_length),
{
    let rest = entries.drop_first();
    let c = byte_len(entries[0]) as int / line_length as int + 1;
    assert forall|k: int|
        0 <= k < entries.len() && #[trigger] rows_needed(entries.take(k), line_length) < budget
            implies rows_needed(entries.take(k + 1), line_length) <= budget by {
        lemma_rows_needed_cons(entries, k, line_length);
        if k > 0 {
            lemma_rows_needed_cons(entries, k - 1, line_length);
            assert(rows_needed(rest.take(k - 1), line_length) < budget - c);
        } else {
            assert(rest.take(0) =~= Seq::<Seq<char>>::empty());
        }
    }
}

/// No listed entry runs out of rows exactly when every entry started with
/// rows left ends within the budget.
pub proof fn lemma_listing_fits_iff(entries: Seq<Seq<char>>, budget: int, line_length: nat)
    requires
        line_length > 0,
    ensures
        listing_fits(entries, budget, line_length) == all_listed_fit(entries, budget, line_length),
    decreases entries.len(),
{
    if entries.len() == 0 {
    } else if budget <= 0 {
        lemma_all_listed_fit_empty_budget(entries, budget, line_length);
    } else {
        let c = byte_len(entries[0]) as int / line_length as int + 1;
        lemma_listing_fits_iff(entries.drop_first(), budget - c, line_length);
        if all_listed_fit(entries, budget, line_length) {
            lemma_all_listed_fit_split(entries, budget, line_length);
        }
        if c <= budget && all_listed_fit(entries.drop_first(), budget - c, line_length) {
            lemma_all_listed_fit_join(entries, budget, line_length);
        }
    }
}

/// A message may be logged exactly when rows have a positive width, the
/// message's own rows (its bytes divided by the row width) do not exceed the
/// box's rows, the starting budget (rows minus those, plus one) fits a
/// `usize`, and every entry listed newest first, the message first, that is
/// started with rows left ends within that budget, an entry of `b` bytes
/// taking `b / row width + 1` rows.
pub proof fn lemma_txt_ok_iff(p: PrinterView, input: Seq<char>)
    ensures
        txt_ok(p, input) == {
            let es = newest_first(bounded_push(p.history, p.lines, input));
            let b = p.lines - byte_len(input) as int / p.line_length as int + 1;
            &&& p.line_length > 0
            &&& byte_len(input) as int / p.line_length as int <= p.lines
            &&& b <= usize::MAX
            &&& all_listed_fit(es, b, p.line_length)
        },
{
    if p.line_length > 0 {
        lemma_listing_fits_iff(
            newest_first(bounded_push(p.history, p.lines, input)),
            first_budget(byte_len(input), p.lines, p.line_length),
            p.line_length,
        );
    }
}

/// Whether a message may be logged depends on the history only through the
/// entries that would be listed: two printers of the same rows whose
/// histories, with the message logged, list the same entries (for instance
/// a full history and the same history without its oldest entry) agree.
pub proof fn lemma_txt_ok_ignores_dropped_entries(p1: PrinterView, p2: PrinterView, input: Seq<char>)
    requires
        p1.line_length == p2.line_length,
        p1.lines == p2.lines,
        newest_first(bounded_push(p1.history, p1.lines, input)) == newest_first(
            bounded_push(p2.history, p2.lines, input),
        ),
    ensures
        txt_ok(p1, input) == txt_ok(p2, input),
{
    lemma_txt_ok_iff(p1, input);
    lemma_txt_ok_iff(p2, input);
}

/// After logging a message the box shows the prompt and the message, then
/// the first `n` entries newest first (the message itself first), where `n`
/// counts the entries started while rows are left out of the starting budget
/// of rows minus the message's own rows plus one; an entry of `b` bytes
/// takes `b / row width + 1` rows.
pub proof fn lemma_rendered_shows_entries(p: PrinterView, input: Seq<char>, n: int)
    requires
        p.line_length > 0,
        ({
            let es = newest_first(bounded_push(p.history, p.lines, input));
            let b = p.lines - byte_len(input) as int / p.line_length as int + 1;
            &&& 0 <= n <= es.len()
            &&& forall|k: int| 0 <= k < n ==> #[trigger] rows_needed(es.take(k), p.line_length) < b
            &&& n == es.len() || rows_needed(es.take(n), p.line_length) >= b
        }),
    ensures
        rendered(bounded_push(p.history, p.lines, input), input, p.lines, p.line_length) == prompt() + input
            + formatted(newest_first(bounded_push(p.history, p.lines, input)).take(n)),
{
    lemma_listing_shows_prefix(
        newest_first(bounded_push(p.history, p.lines, input)),
        p.lines - byte_len(input) as int / p.line_length as int + 1,
        p.line_length,
        n,
    );
}

} // verus!
