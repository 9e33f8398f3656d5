//! The handbook: Markdown topics with YAML front matter and typed content
//! blocks, parsed and validated once so that every client reads the same
//! checked content.

use vstd::prelude::*;
use vstd::string::{StrSliceExecFns, StringExecFns};

use crate::text::{
    has_no_cr, lemma_crlf_round_trip, lemma_crlf_to_lf_without_cr, lf_to_crlf,
    chars_eq, chars_of, lemma_push_deep_view, concat_str, crlf_to_lf, crlf_to_lf_exec, ends_with, ends_with_exec, is_literal, join, join_exec, lines,
    lines_exec, parse_u32, parse_unsigned, slice_vec, split, split_exec, split_once,
    split_once_exec, starts_with, starts_with_exec, string_of, trim, trim_vec,
};

verus! {

#[derive(Debug, Clone, PartialEq, Eq)]
pub struct HelpTopic {
    pub help_id: String,
    pub title: String,
    pub subtitle: Option<String>,
    pub analogy: Option<String>,
    pub body: String,
    pub category: String,
    pub related_ids: Vec<String>,
    pub sections: Vec<HelpContentBlock>,
}

#[derive(Debug, Clone, PartialEq, Eq)]
pub enum HelpContentBlock {
    Body { markdown: String },
    BulletList { items: Vec<String> },
    Callout { style: CalloutStyle, text: String },
    InApp { items: Vec<String> },
    Advanced { markdown: String },
    Checklist { phase: String, steps: Vec<ChecklistStepBlock> },
    Table { headers: Vec<String>, rows: Vec<Vec<String>> },
}

#[derive(Debug, Clone, Copy, PartialEq, Eq)]
pub enum CalloutStyle {
    Tip,
    Warning,
    Pitfall,
    Note,
}

#[derive(Debug, Clone, PartialEq, Eq)]
pub struct ChecklistStepBlock {
    pub number: u32,
    pub title: String,
    pub detail: String,
}

#[derive(Debug, Clone, PartialEq, Eq)]
pub struct HelpCatalogEntry {
    pub help_id: String,
    pub title: String,
    pub category: String,
}

#[derive(Debug, Clone)]
pub struct HelpCatalog {
    pub topics: Vec<HelpCatalogEntry>,
}

/// A checklist step as plain values.
pub struct StepModel {
    pub number: u32,
    pub title: Seq<char>,
    pub detail: Seq<char>,
}

/// A content block as plain values.
pub enum BlockModel {
    Body(Seq<char>),
    BulletList(Seq<Seq<char>>),
    Callout(CalloutStyle, Seq<char>),
    InApp(Seq<Seq<char>>),
    Advanced(Seq<char>),
    Checklist(Seq<char>, Seq<StepModel>),
    Table(Seq<Seq<char>>, Seq<Seq<Seq<char>>>),
}

/// A topic as plain values.
pub struct TopicModel {
    pub help_id: Seq<char>,
    pub title: Seq<char>,
    pub subtitle: Option<Seq<char>>,
    pub analogy: Option<Seq<char>>,
    pub body: Seq<char>,
    pub category: Seq<char>,
    pub related_ids: Seq<Seq<char>>,
    pub sections: Seq<BlockModel>,
}

impl DeepView for ChecklistStepBlock {
    type V = StepModel;

    open spec fn deep_view(&self) -> StepModel {
        StepModel { number: self.number, title: self.title@, detail: self.detail@ }
    }
}

impl DeepView for HelpContentBlock {
    type V = BlockModel;

    open spec fn deep_view(&self) -> BlockModel {
        match self {
            HelpContentBlock::Body { markdown } => BlockModel::Body(markdown@),
            HelpContentBlock::BulletList { items } => BlockModel::BulletList(items.deep_view()),
            HelpContentBlock::Callout { style, text } => BlockModel::Callout(*style, text@),
            HelpContentBlock::InApp { items } => BlockModel::InApp(items.deep_view()),
            HelpContentBlock::Advanced { markdown } => BlockModel::Advanced(markdown@),
            HelpContentBlock::Checklist { phase, steps } => BlockModel::Checklist(
                phase@,
                steps.deep_view(),
            ),
            HelpContentBlock::Table { headers, rows } => BlockModel::Table(
                headers.deep_view(),
                rows.deep_view(),
            ),
        }
    }
}

impl DeepView for HelpTopic {
    type V = TopicModel;

    open spec fn deep_view(&self) -> TopicModel {
        TopicModel {
            help_id: self.help_id@,
            title: self.title@,
            subtitle: self.subtitle.deep_view(),
            analogy: self.analogy.deep_view(),
            body: self.body@,
            category: self.category@,
            related_ids: self.related_ids.deep_view(),
            sections: self.sections.deep_view(),
        }
    }
}

// ---------------------------------------------------------------------------
// What the parser produces, stated over plain values.
// ---------------------------------------------------------------------------

/// `source` followed by `message`.
pub open spec fn located(source: Seq<char>, message: Seq<char>) -> Seq<char> {
    source + message
}

/// The trimmed lines of `ls` that are not blank, in order.
pub open spec fn trimmed_nonblank(ls: Seq<Seq<char>>) -> Seq<Seq<char>>
    decreases ls.len(),
{
    if ls.len() == 0 {
        seq![]
    } else if trim(ls[0]).len() == 0 {
        trimmed_nonblank(ls.drop_first())
    } else {
        seq![trim(ls[0])] + trimmed_nonblank(ls.drop_first())
    }
}

/// The trimmed form of a table row is the single character `|`: splitting it
/// into cells takes the slice `[1..0]`, which panics.
pub open spec fn is_bare_pipe(line: Seq<char>) -> bool {
    trim(line) == seq!['|']
}

/// The cells of one `| a | b |` table row.
pub open spec fn pipe_row(line: Seq<char>, source: Seq<char>) -> Result<
    Seq<Seq<char>>,
    Seq<char>,
> {
    let t = trim(line);
    if !starts_with(t, seq!['|']) || !ends_with(t, seq!['|']) {
        Err(located(source, ": malformed table row"@))
    } else {
        Ok(split(t.subrange(1, t.len() - 1), '|').map_values(|cell: Seq<char>| trim(cell)))
    }
}

/// A table divider: as many cells as headers, each a non-empty run of `-`.
pub open spec fn divider_ok(divider: Seq<Seq<char>>, columns: int) -> bool {
    &&& divider.len() == columns
    &&& forall|i: int|
        0 <= i < divider.len() ==> {
            &&& (#[trigger] divider[i]).len() > 0
            &&& forall|j: int| 0 <= j < divider[i].len() ==> divider[i][j] == '-'
        }
}

/// The data rows of a table, each with `columns` cells.
pub open spec fn data_rows(rows: Seq<Seq<char>>, columns: int, source: Seq<char>) -> Result<
    Seq<Seq<Seq<char>>>,
    Seq<char>,
>
    decreases rows.len(),
{
    if rows.len() == 0 {
        Ok(seq![])
    } else {
        match pipe_row(rows[0], source) {
            Err(e) => Err(e),
            Ok(cells) => if cells.len() != columns {
                Err(located(source, ": table row has the wrong number of cells"@))
            } else {
                match data_rows(rows.drop_first(), columns, source) {
                    Err(e) => Err(e),
                    Ok(rest) => Ok(seq![cells] + rest),
                }
            },
        }
    }
}

/// Reading the data rows reaches a bare `|` row.
pub open spec fn data_rows_abort(rows: Seq<Seq<char>>, columns: int, source: Seq<char>) -> bool
    decreases rows.len(),
{
    rows.len() > 0 && (is_bare_pipe(rows[0]) || (pipe_row(rows[0], source) matches Ok(cells)
        && cells.len() == columns && data_rows_abort(rows.drop_first(), columns, source)))
}

/// A `### Table` block: a header row, a divider row, then data rows.
pub open spec fn table_block(ls: Seq<Seq<char>>, source: Seq<char>) -> Result<BlockModel, Seq<char>> {
    let rows = trimmed_nonblank(ls);
    if rows.len() < 3 {
        Err(located(source, ": table needs a header, divider, and row"@))
    } else {
        match pipe_row(rows[0], source) {
            Err(e) => Err(e),
            Ok(headers) => match pipe_row(rows[1], source) {
                Err(e) => Err(e),
                Ok(divider) => if !divider_ok(divider, headers.len() as int) {
                    Err(located(source, ": malformed table divider"@))
                } else {
                    match data_rows(rows.skip(2), headers.len() as int, source) {
                        Err(e) => Err(e),
                        Ok(data) => Ok(BlockModel::Table(headers, data)),
                    }
                },
            },
        }
    }
}

/// Reading a `### Table` block reaches a bare `|` row.
pub open spec fn table_aborts(ls: Seq<Seq<char>>, source: Seq<char>) -> bool {
    let rows = trimmed_nonblank(ls);
    rows.len() >= 3 && (is_bare_pipe(rows[0]) || (pipe_row(rows[0], source) matches Ok(headers)
        && (is_bare_pipe(rows[1]) || (pipe_row(rows[1], source) matches Ok(divider) && divider_ok(
        divider,
        headers.len() as int,
    ) && data_rows_abort(rows.skip(2), headers.len() as int, source)))))
}


/// The items of a list block: every non-blank line, trimmed, must start
/// with `- `; the item is the rest of the line.
pub open spec fn list_rows(rows: Seq<Seq<char>>, marker: Seq<char>, source: Seq<char>) -> Result<
    Seq<Seq<char>>,
    Seq<char>,
>
    decreases rows.len(),
{
    if rows.len() == 0 {
        Ok(seq![])
    } else if !starts_with(rows[0], "- "@) {
        Err(located(source, ": '### "@ + marker + "' contains a non-list line"@))
    } else {
        match list_rows(rows.drop_first(), marker, source) {
            Err(e) => Err(e),
            Ok(rest) => Ok(seq![rows[0].skip("- "@.len() as int)] + rest),
        }
    }
}

/// A `### Bullet List` or `### In This App` block: at least one item.
pub open spec fn list_block(ls: Seq<Seq<char>>, marker: Seq<char>, source: Seq<char>) -> Result<
    Seq<Seq<char>>,
    Seq<char>,
> {
    match list_rows(trimmed_nonblank(ls), marker, source) {
        Err(e) => Err(e),
        Ok(items) => if items.len() == 0 {
            Err(located(source, ": list heading '### "@ + marker + "' has no items"@))
        } else {
            Ok(items)
        },
    }
}

/// The style named after `### Callout: `.
pub open spec fn callout_style(value: Seq<char>, source: Seq<char>) -> Result<CalloutStyle, Seq<char>> {
    let v = trim(value);
    if v == "tip"@ {
        Ok(CalloutStyle::Tip)
    } else if v == "warning"@ {
        Ok(CalloutStyle::Warning)
    } else if v == "pitfall"@ {
        Ok(CalloutStyle::Pitfall)
    } else if v == "note"@ {
        Ok(CalloutStyle::Note)
    } else {
        Err(located(source, ": unknown callout style '"@ + v + "'"@))
    }
}

/// Each callout word names its own style, whatever surrounds it: `tip` a
/// tip, `warning` a warning, `pitfall` a pitfall and `note` a note; any
/// other word is refused.
pub proof fn law_callout_words(value: Seq<char>, source: Seq<char>)
    ensures
        trim(value) == "tip"@ ==> callout_style(value, source) == Ok::<CalloutStyle, Seq<char>>(
            CalloutStyle::Tip,
        ),
        trim(value) == "warning"@ ==> callout_style(value, source) == Ok::<CalloutStyle, Seq<char>>(
            CalloutStyle::Warning,
        ),
        trim(value) == "pitfall"@ ==> callout_style(value, source) == Ok::<CalloutStyle, Seq<char>>(
            CalloutStyle::Pitfall,
        ),
        trim(value) == "note"@ ==> callout_style(value, source) == Ok::<CalloutStyle, Seq<char>>(
            CalloutStyle::Note,
        ),
        trim(value) != "tip"@ && trim(value) != "warning"@ && trim(value) != "pitfall"@ && trim(
            value,
        ) != "note"@ ==> callout_style(value, source) is Err,
{
    reveal_strlit("tip");
    reveal_strlit("warning");
    reveal_strlit("pitfall");
    reveal_strlit("note");
    assert("tip"@.len() == 3 && "warning"@.len() == 7 && "pitfall"@.len() == 7 && "note"@.len() == 4);
    assert("warning"@[0] != "pitfall"@[0]);
}

/// The steps of a checklist: each non-blank line, trimmed, is
/// `N. **Title** — Detail` with a `u32` number, a non-empty title and a
/// detail that is not blank.
pub open spec fn checklist_rows(rows: Seq<Seq<char>>, marker: Seq<char>, source: Seq<char>) -> Result<
    Seq<StepModel>,
    Seq<char>,
>
    decreases rows.len(),
{
    if rows.len() == 0 {
        Ok(seq![])
    } else {
        let malformed = located(source, ": malformed checklist line in '### "@ + marker + "'"@);
        match split_once(rows[0], ". **"@) {
            None => Err(malformed),
            Some((number, rest)) => match parse_unsigned(number, u32::MAX as int) {
                None => Err(located(source, ": invalid checklist number '"@ + number + "'"@)),
                Some(n) => match split_once(rest, "** — "@) {
                    None => Err(malformed),
                    Some((title, detail)) => if title.len() == 0 || trim(detail).len() == 0 {
                        Err(
                            located(
                                source,
                                ": incomplete checklist line in '### "@ + marker + "'"@,
                            ),
                        )
                    } else {
                        match checklist_rows(rows.drop_first(), marker, source) {
                            Err(e) => Err(e),
                            Ok(steps) => Ok(
                                seq![StepModel { number: n as u32, title, detail: trim(detail) }]
                                    + steps,
                            ),
                        }
                    },
                },
            },
        }
    }
}

/// A `### Checklist: <phase>` block: at least one step.
pub open spec fn checklist_block(ls: Seq<Seq<char>>, marker: Seq<char>, source: Seq<char>) -> Result<
    Seq<StepModel>,
    Seq<char>,
> {
    match checklist_rows(trimmed_nonblank(ls), marker, source) {
        Err(e) => Err(e),
        Ok(steps) => if steps.len() == 0 {
            Err(located(source, ": checklist heading '### "@ + marker + "' has no steps"@))
        } else {
            Ok(steps)
        },
    }
}

/// A text block must not be empty.
pub open spec fn non_empty(block: BlockModel, marker: Seq<char>, source: Seq<char>) -> Result<
    BlockModel,
    Seq<char>,
> {
    let empty = match block {
        BlockModel::Body(t) => t.len() == 0,
        BlockModel::Advanced(t) => t.len() == 0,
        BlockModel::Callout(_, t) => t.len() == 0,
        _ => false,
    };
    if empty {
        Err(located(source, ": content heading '### "@ + marker + "' has no content"@))
    } else {
        Ok(block)
    }
}

/// One `### <marker>` block with the lines under it.
pub open spec fn content_block(marker: Seq<char>, ls: Seq<Seq<char>>, source: Seq<char>) -> Result<
    BlockModel,
    Seq<char>,
> {
    let text = trim(join(ls, "\n"@));
    if marker == "Body"@ {
        non_empty(BlockModel::Body(text), marker, source)
    } else if marker == "Bullet List"@ {
        match list_block(ls, marker, source) {
            Err(e) => Err(e),
            Ok(items) => Ok(BlockModel::BulletList(items)),
        }
    } else if marker == "In This App"@ {
        match list_block(ls, marker, source) {
            Err(e) => Err(e),
            Ok(items) => Ok(BlockModel::InApp(items)),
        }
    } else if marker == "Advanced Details"@ {
        non_empty(BlockModel::Advanced(text), marker, source)
    } else if marker == "Table"@ {
        table_block(ls, source)
    } else if starts_with(marker, "Callout: "@) {
        match callout_style(marker.skip("Callout: "@.len() as int), source) {
            Err(e) => Err(e),
            Ok(style) => non_empty(BlockModel::Callout(style, text), marker, source),
        }
    } else if starts_with(marker, "Checklist: "@) {
        match checklist_block(ls, marker, source) {
            Err(e) => Err(e),
            Ok(steps) => Ok(
                BlockModel::Checklist(trim(marker.skip("Checklist: "@.len() as int)), steps),
            ),
        }
    } else {
        Err(located(source, ": unrecognized content heading '### "@ + marker + "'"@))
    }
}

/// Reading one block reaches a bare `|` table row.
pub open spec fn content_block_aborts(marker: Seq<char>, ls: Seq<Seq<char>>, source: Seq<char>) -> bool {
    marker == "Table"@ && table_aborts(ls, source)
}


/// A line that opens a content block.
pub open spec fn is_heading(line: Seq<char>) -> bool {
    starts_with(line, "### "@)
}

/// The index of the first heading line of `ls`, or its length when none.
pub open spec fn first_heading(ls: Seq<Seq<char>>) -> int
    decreases ls.len(),
{
    if ls.len() == 0 {
        0
    } else if is_heading(ls[0]) {
        0
    } else {
        1 + first_heading(ls.drop_first())
    }
}

pub proof fn lemma_first_heading_bounds(ls: Seq<Seq<char>>)
    ensures
        0 <= first_heading(ls) <= ls.len(),
        first_heading(ls) < ls.len() ==> is_heading(ls[first_heading(ls)]),
        forall|k: int| 0 <= k < first_heading(ls) ==> !is_heading(#[trigger] ls[k]),
    decreases ls.len(),
{
    if ls.len() > 0 && !is_heading(ls[0]) {
        lemma_first_heading_bounds(ls.drop_first());
        assert forall|k: int| 0 <= k < first_heading(ls) implies !is_heading(#[trigger] ls[k]) by {
            if k > 0 {
                assert(ls[k] == ls.drop_first()[k - 1]);
            }
        }
    }
}

proof fn lemma_first_heading_at(ls: Seq<Seq<char>>, k: int)
    requires
        0 <= k <= ls.len(),
        k < ls.len() ==> is_heading(ls[k]),
        forall|j: int| 0 <= j < k ==> !is_heading(#[trigger] ls[j]),
    ensures
        first_heading(ls) == k,
    decreases k,
{
    if k > 0 {
        let t = ls.drop_first();
        assert forall|j: int| 0 <= j < k - 1 implies !is_heading(#[trigger] t[j]) by {
            assert(t[j] == ls[j + 1]);
        }
        if k - 1 < t.len() {
            assert(t[k - 1] == ls[k]);
        }
        assert(!is_heading(ls[0]));
        lemma_first_heading_at(t, k - 1);
    }
}

/// The text of a heading line after `### `, trimmed.
pub open spec fn heading_marker(line: Seq<char>) -> Seq<char> {
    trim(line.skip("### "@.len() as int))
}

/// The blocks of `ls`, which starts at a heading: each heading with the
/// lines up to the next heading.
pub open spec fn group_blocks(ls: Seq<Seq<char>>) -> Seq<(Seq<char>, Seq<Seq<char>>)>
    decreases ls.len(),
{
    if ls.len() == 0 {
        seq![]
    } else {
        let tail = ls.drop_first();
        let n = first_heading(tail);
        proof {
            lemma_first_heading_bounds(tail);
        }
        seq![(heading_marker(ls[0]), tail.take(n))] + group_blocks(tail.skip(n))
    }
}

/// The blocks, each parsed in order; the first error stops the reading.
pub open spec fn sections(blocks: Seq<(Seq<char>, Seq<Seq<char>>)>, source: Seq<char>) -> Result<
    Seq<BlockModel>,
    Seq<char>,
>
    decreases blocks.len(),
{
    if blocks.len() == 0 {
        Ok(seq![])
    } else {
        match content_block(blocks[0].0, blocks[0].1, source) {
            Err(e) => Err(e),
            Ok(b) => match sections(blocks.drop_first(), source) {
                Err(e) => Err(e),
                Ok(rest) => Ok(seq![b] + rest),
            },
        }
    }
}

/// Reading the blocks in order reaches a bare `|` table row.
pub open spec fn sections_abort(blocks: Seq<(Seq<char>, Seq<Seq<char>>)>, source: Seq<char>) -> bool
    decreases blocks.len(),
{
    blocks.len() > 0 && (content_block_aborts(blocks[0].0, blocks[0].1, source) || (content_block(
        blocks[0].0,
        blocks[0].1,
        source,
    ) is Ok && sections_abort(blocks.drop_first(), source)))
}

/// The body of a topic: without any `### ` heading line, the trimmed body
/// and no blocks; otherwise the trimmed lines before the first heading, and
/// the parsed blocks.
pub open spec fn content_blocks(body: Seq<char>, source: Seq<char>) -> Result<
    (Seq<char>, Seq<BlockModel>),
    Seq<char>,
> {
    let ls = lines(body);
    let h = first_heading(ls);
    if h >= ls.len() {
        Ok((trim(body), seq![]))
    } else {
        match sections(group_blocks(ls.skip(h)), source) {
            Err(e) => Err(e),
            Ok(secs) => Ok((trim(join(ls.take(h), "\n"@)), secs)),
        }
    }
}

/// Reading the body reaches a bare `|` table row.
pub open spec fn content_blocks_abort(body: Seq<char>, source: Seq<char>) -> bool {
    let ls = lines(body);
    let h = first_heading(ls);
    h < ls.len() && sections_abort(group_blocks(ls.skip(h)), source)
}

/// What `serde_json::from_str::<String>` gives for `text`: the decoded
/// string, or the text of its error.
pub uninterp spec fn json_string(text: Seq<char>) -> Result<Seq<char>, Seq<char>>;

/// A front-matter value: a JSON string when it starts with `"`, otherwise
/// the text as written.
pub open spec fn front_matter_value(value: Seq<char>, source: Seq<char>) -> Result<
    Seq<char>,
    Seq<char>,
> {
    if starts_with(value, seq!['"']) {
        match json_string(value) {
            Ok(v) => Ok(v),
            Err(e) => Err(located(source, ": invalid quoted front-matter value: "@ + e)),
        }
    } else {
        Ok(value)
    }
}

/// The `key: value` pairs of the front matter, in order; blank lines are
/// skipped, and the first bad line stops the reading.
pub open spec fn front_matter_fields(ls: Seq<Seq<char>>, source: Seq<char>) -> Result<
    Seq<(Seq<char>, Seq<char>)>,
    Seq<char>,
>
    decreases ls.len(),
{
    if ls.len() == 0 {
        Ok(seq![])
    } else if trim(ls[0]).len() == 0 {
        front_matter_fields(ls.drop_first(), source)
    } else {
        match split_once(ls[0], ":"@) {
            None => Err(located(source, ": malformed front-matter line '"@ + ls[0] + "'"@)),
            Some((key, value)) => match front_matter_value(trim(value), source) {
                Err(e) => Err(e),
                Ok(v) => match front_matter_fields(ls.drop_first(), source) {
                    Err(e) => Err(e),
                    Ok(rest) => Ok(seq![(trim(key), v)] + rest),
                },
            },
        }
    }
}

/// The value of the last field named `key`.
pub open spec fn field(fields: Seq<(Seq<char>, Seq<char>)>, key: Seq<char>) -> Option<Seq<char>>
    decreases fields.len(),
{
    if fields.len() == 0 {
        None
    } else if fields.last().0 == key {
        Some(fields.last().1)
    } else {
        field(fields.drop_last(), key)
    }
}

/// `[` and `]` are the list brackets of `relatedIds`.
pub open spec fn is_bracket(c: char) -> bool {
    c == '[' || c == ']'
}

/// Leading brackets removed.
pub open spec fn strip_brackets_start(s: Seq<char>) -> Seq<char>
    decreases s.len(),
{
    if s.len() > 0 && is_bracket(s[0]) {
        strip_brackets_start(s.drop_first())
    } else {
        s
    }
}

/// Trailing brackets removed.
pub open spec fn strip_brackets_end(s: Seq<char>) -> Seq<char>
    decreases s.len(),
{
    if s.len() > 0 && is_bracket(s.last()) {
        strip_brackets_end(s.drop_last())
    } else {
        s
    }
}

/// The ids listed in `relatedIds`: brackets stripped, split at commas,
/// trimmed, blanks dropped.
pub open spec fn related_ids(fields: Seq<(Seq<char>, Seq<char>)>) -> Seq<Seq<char>> {
    match field(fields, "relatedIds"@) {
        Some(v) => trimmed_nonblank(split(strip_brackets_end(strip_brackets_start(v)), ',')),
        None => seq![],
    }
}

/// A topic file: `---` front matter `---` then the body.
pub open spec fn parse_topic_spec(text: Seq<char>, source: Seq<char>) -> Result<
    TopicModel,
    Seq<char>,
> {
    let normalized = crlf_to_lf(text);
    if !starts_with(normalized, "---\n"@) {
        Err(located(source, ": missing YAML front matter"@))
    } else {
        match split_once(normalized.skip("---\n"@.len() as int), "\n---\n"@) {
            None => Err(located(source, ": unterminated YAML front matter"@)),
            Some((front, body)) => match front_matter_fields(lines(front), source) {
                Err(e) => Err(e),
                Ok(fields) => match content_blocks(body, source) {
                    Err(e) => Err(e),
                    Ok((text_body, secs)) => match field(fields, "id"@) {
                        None => Err(located(source, ": missing "@ + "id"@)),
                        Some(id) => match field(fields, "title"@) {
                            None => Err(located(source, ": missing "@ + "title"@)),
                            Some(title) => match field(fields, "category"@) {
                                None => Err(located(source, ": missing "@ + "category"@)),
                                Some(category) => Ok(
                                    TopicModel {
                                        help_id: id,
                                        title,
                                        subtitle: field(fields, "subtitle"@),
                                        analogy: field(fields, "analogy"@),
                                        body: text_body,
                                        category,
                                        related_ids: related_ids(fields),
                                        sections: secs,
                                    },
                                ),
                            },
                        },
                    },
                },
            },
        }
    }
}

/// Reading a topic file reaches a bare `|` table row.
pub open spec fn parse_topic_aborts(text: Seq<char>, source: Seq<char>) -> bool {
    let normalized = crlf_to_lf(text);
    &&& starts_with(normalized, "---\n"@)
    &&& split_once(normalized.skip("---\n"@.len() as int), "\n---\n"@) matches Some((front, body))
    &&& front_matter_fields(lines(front), source) is Ok
    &&& content_blocks_abort(body, source)
}

/// A topic file reads the same whether its lines end in `"\n"` or in
/// `"\r\n"`: a text without carriage returns and its Windows form give the
/// same topic, or the same error, and either both reach a bare table row
/// or neither does.
pub proof fn law_crlf_topic_reads_alike(text: Seq<char>, source: Seq<char>)
    requires
        has_no_cr(text),
    ensures
        parse_topic_spec(lf_to_crlf(text), source) == parse_topic_spec(text, source),
        parse_topic_aborts(lf_to_crlf(text), source) == parse_topic_aborts(text, source),
{
    lemma_crlf_round_trip(text);
    lemma_crlf_to_lf_without_cr(text);
}

// ---------------------------------------------------------------------------
// The parser.
// ---------------------------------------------------------------------------

/// `source` followed by the literal `message`.
fn located_exec(source: &String, message: &str) -> (res: String)
    ensures
        res@ == located(source@, message@),
{
    concat_str(source.clone(), message)
}

/// `source + a + middle + b`.
fn located_around(source: &String, a: &str, middle: &[char], b: &str) -> (res: String)
    ensures
        res@ == located(source@, a@ + middle@ + b@),
{
    let mut s = concat_str(source.clone(), a);
    let m = string_of(middle);
    s = concat_str(s, m.as_str());
    s = concat_str(s, b);
    assert(source@ + a@ + middle@ + b@ == source@ + (a@ + middle@ + b@));
    s
}

proof fn lemma_strings_deep_view(v: Vec<String>, s: Seq<Seq<char>>)
    requires
        v@.len() == s.len(),
        forall|i: int| 0 <= i < s.len() ==> (#[trigger] v@[i])@ == s[i],
    ensures
        v.deep_view() == s,
{
    assert(v.deep_view() =~= s);
}

/// Strings holding the given character sequences.
fn strings_of(parts: &Vec<Vec<char>>) -> (res: Vec<String>)
    ensures
        res.deep_view() == parts.deep_view(),
{
    let mut res: Vec<String> = Vec::new();
    let mut i: usize = 0;
    while i < parts.len()
        invariant
            i <= parts.len(),
            res@.len() == i,
            forall|k: int| 0 <= k < i ==> (#[trigger] res@[k])@ == parts@[k]@,
        decreases parts.len() - i,
    {
        res.push(string_of(parts[i].as_slice()));
        i += 1;
    }
    proof {
        assert forall|k: int| 0 <= k < parts.deep_view().len() implies (#[trigger] res@[k])@
            == parts.deep_view()[k] by {
            assert(parts@[k].deep_view() =~= parts@[k]@);
        }
        lemma_strings_deep_view(res, parts.deep_view());
    }
    res
}

/// The trimmed lines of `ls` that are not blank.
fn trimmed_nonblank_exec(ls: &Vec<Vec<char>>) -> (res: Vec<Vec<char>>)
    ensures
        res.deep_view() == trimmed_nonblank(ls.deep_view()),
{
    let mut out: Vec<Vec<char>> = Vec::new();
    let mut i: usize = 0;
    assert(out.deep_view() =~= Seq::<Seq<char>>::empty());
    assert(ls.deep_view().skip(0) == ls.deep_view());
    while i < ls.len()
        invariant
            i <= ls.len(),
            out.deep_view() + trimmed_nonblank(ls.deep_view().skip(i as int)) == trimmed_nonblank(
                ls.deep_view(),
            ),
        decreases ls.len() - i,
    {
        let ghost rest = ls.deep_view().skip(i as int);
        assert(rest.drop_first() == ls.deep_view().skip(i + 1));
        assert(rest[0] == ls@[i as int]@) by {
            assert(ls@[i as int].deep_view() =~= ls@[i as int]@);
        }
        let t = trim_vec(ls[i].as_slice());
        if t.len() > 0 {
            let ghost old_out = out.deep_view();
            let ghost before = out;
            let ghost pushed = t;
            out.push(t);
            proof {
                assert(out.deep_view() =~= before.deep_view().push(pushed@)) by {
                    assert(pushed.deep_view() =~= pushed@);
                }
                assert(old_out + (seq![trim(rest[0])] + trimmed_nonblank(rest.drop_first()))
                    == old_out.push(trim(rest[0])) + trimmed_nonblank(rest.drop_first()));
            }
        }
        i += 1;
    }
    assert(out.deep_view() + trimmed_nonblank(ls.deep_view().skip(i as int)) == out.deep_view());
    out
}

/// The cells of one table row.
fn parse_pipe_row(line: &[char], source: &String) -> (res: Result<Vec<Vec<char>>, String>)
    requires
        !is_bare_pipe(line@),
    ensures
        match res {
            Ok(cells) => pipe_row(line@, source@) == Ok::<Seq<Seq<char>>, Seq<char>>(
                cells.deep_view(),
            ),
            Err(e) => pipe_row(line@, source@) == Err::<Seq<Seq<char>>, Seq<char>>(e@),
        },
{
    let t = trim_vec(line);
    let bar = ['|'];
    if !starts_with_exec(t.as_slice(), bar.as_slice()) || !ends_with_exec(t.as_slice(), bar.as_slice()) {
        assert(bar@ == seq!['|']);
        return Err(located_exec(source, ": malformed table row"));
    }
    assert(bar@ == seq!['|']);
    proof {
        if t@.len() == 1 {
            assert(t@ == seq![t@[0]]);
            assert(t@.take(1)[0] == '|');
        }
    }
    let inner = slice_vec(t.as_slice(), 1, t.len() - 1);
    let pieces = split_exec(inner.as_slice(), '|');
    let mut cells: Vec<Vec<char>> = Vec::new();
    let mut i: usize = 0;
    while i < pieces.len()
        invariant
            i <= pieces.len(),
            cells@.len() == i,
            forall|k: int| 0 <= k < i ==> (#[trigger] cells@[k])@ == trim(pieces.deep_view()[k]),
        decreases pieces.len() - i,
    {
        proof {
            assert(pieces.deep_view()[i as int] == pieces@[i as int]@) by {
                assert(pieces@[i as int].deep_view() =~= pieces@[i as int]@);
            }
        }
        cells.push(trim_vec(pieces[i].as_slice()));
        i += 1;
    }
    proof {
        let expect = split(inner@, '|').map_values(|cell: Seq<char>| trim(cell));
        assert forall|k: int| 0 <= k < expect.len() implies cells.deep_view()[k] == expect[k] by {
            assert(cells@[k].deep_view() =~= cells@[k]@);
        }
        assert(cells.deep_view() =~= expect);
    }
    Ok(cells)
}

/// Whether a divider row has `columns` cells, each a non-empty run of `-`.
fn divider_ok_exec(divider: &Vec<Vec<char>>, columns: usize) -> (res: bool)
    ensures
        res == divider_ok(divider.deep_view(), columns as int),
{
    if divider.len() != columns {
        return false;
    }
    let mut i: usize = 0;
    while i < divider.len()
        invariant
            i <= divider.len(),
            forall|k: int|
                0 <= k < i ==> {
                    &&& (#[trigger] divider.deep_view()[k]).len() > 0
                    &&& forall|j: int|
                        0 <= j < divider.deep_view()[k].len() ==> divider.deep_view()[k][j] == '-'
                },
        decreases divider.len() - i,
    {
        let cell = &divider[i];
        assert(divider.deep_view()[i as int] == cell@) by {
            assert(cell.deep_view() =~= cell@);
        }
        if cell.len() == 0 {
            return false;
        }
        let mut j: usize = 0;
        while j < cell.len()
            invariant
                j <= cell.len(),
                i < divider.len(),
                divider.deep_view()[i as int] == cell@,
                forall|m: int| 0 <= m < j ==> cell@[m] == '-',
            decreases cell.len() - j,
        {
            if cell[j] != '-' {
                assert(divider.deep_view()[i as int][j as int] != '-');
                return false;
            }
            j += 1;
        }
        i += 1;
    }
    true
}

/// The data rows of a table.
fn parse_data_rows(rows: &Vec<Vec<char>>, from: usize, columns: usize, source: &String) -> (res: Result<Vec<Vec<String>>, String>)
    requires
        from <= rows.len(),
        !data_rows_abort(rows.deep_view().skip(from as int), columns as int, source@),
    ensures
        match res {
            Ok(data) => data_rows(rows.deep_view().skip(from as int), columns as int, source@)
                == Ok::<Seq<Seq<Seq<char>>>, Seq<char>>(data.deep_view()),
            Err(e) => data_rows(rows.deep_view().skip(from as int), columns as int, source@)
                == Err::<Seq<Seq<Seq<char>>>, Seq<char>>(e@),
        },
{
    let ghost all = rows.deep_view().skip(from as int);
    let mut out: Vec<Vec<String>> = Vec::new();
    let mut i = from;
    assert(out.deep_view() =~= Seq::<Seq<Seq<char>>>::empty());
    while i < rows.len()
        invariant
            from <= i <= rows.len(),
            all == rows.deep_view().skip(from as int),
            !data_rows_abort(rows.deep_view().skip(i as int), columns as int, source@),
            data_rows(all, columns as int, source@) == match data_rows(
                rows.deep_view().skip(i as int),
                columns as int,
                source@,
            ) {
                Err(e) => Err(e),
                Ok(rest) => Ok(out.deep_view() + rest),
            },
        decreases rows.len() - i,
    {
        let ghost rest = rows.deep_view().skip(i as int);
        assert(rest.drop_first() == rows.deep_view().skip(i + 1));
        assert(rest[0] == rows@[i as int]@) by {
            assert(rows@[i as int].deep_view() =~= rows@[i as int]@);
        }
        let cells = match parse_pipe_row(rows[i].as_slice(), source) {
            Ok(cells) => cells,
            Err(e) => return Err(e),
        };
        if cells.len() != columns {
            return Err(located_exec(source, ": table row has the wrong number of cells"));
        }
        let strings = strings_of(&cells);
        let ghost before = out.deep_view();
        out.push(strings);
        proof {
            assert(out.deep_view() =~= before.push(cells.deep_view()));
            match data_rows(rest.drop_first(), columns as int, source@) {
                Err(e) => {},
                Ok(tail) => {
                    assert(before + (seq![cells.deep_view()] + tail) == before.push(
                        cells.deep_view(),
                    ) + tail);
                },
            }
        }
        i += 1;
    }
    assert(rows.deep_view().skip(i as int) =~= Seq::<Seq<char>>::empty());
    assert(out.deep_view() + Seq::<Seq<Seq<char>>>::empty() == out.deep_view());
    Ok(out)
}

/// A `### Table` block.
fn parse_table(ls: &Vec<Vec<char>>, source: &String) -> (res: Result<HelpContentBlock, String>)
    requires
        !table_aborts(ls.deep_view(), source@),
    ensures
        match res {
            Ok(block) => table_block(ls.deep_view(), source@) == Ok::<BlockModel, Seq<char>>(
                block.deep_view(),
            ),
            Err(e) => table_block(ls.deep_view(), source@) == Err::<BlockModel, Seq<char>>(e@),
        },
{
    let rows = trimmed_nonblank_exec(ls);
    if rows.len() < 3 {
        return Err(located_exec(source, ": table needs a header, divider, and row"));
    }
    proof {
        assert(rows.deep_view()[0] == rows@[0]@) by {
            assert(rows@[0].deep_view() =~= rows@[0]@);
        }
        assert(rows.deep_view()[1] == rows@[1]@) by {
            assert(rows@[1].deep_view() =~= rows@[1]@);
        }
    }
    let headers = match parse_pipe_row(rows[0].as_slice(), source) {
        Ok(h) => h,
        Err(e) => return Err(e),
    };
    let divider = match parse_pipe_row(rows[1].as_slice(), source) {
        Ok(d) => d,
        Err(e) => return Err(e),
    };
    if !divider_ok_exec(&divider, headers.len()) {
        return Err(located_exec(source, ": malformed table divider"));
    }
    let data = match parse_data_rows(&rows, 2, headers.len(), source) {
        Ok(d) => d,
        Err(e) => return Err(e),
    };
    let header_strings = strings_of(&headers);
    Ok(HelpContentBlock::Table { headers: header_strings, rows: data })
}

/// The items of a `### Bullet List` or `### In This App` block.
fn parse_markdown_list(ls: &Vec<Vec<char>>, marker: &[char], source: &String) -> (res: Result<Vec<String>, String>)
    ensures
        match res {
            Ok(items) => list_block(ls.deep_view(), marker@, source@) == Ok::<
                Seq<Seq<char>>,
                Seq<char>,
            >(items.deep_view()),
            Err(e) => list_block(ls.deep_view(), marker@, source@) == Err::<
                Seq<Seq<char>>,
                Seq<char>,
            >(e@),
        },
{
    let rows = trimmed_nonblank_exec(ls);
    let ghost all = rows.deep_view();
    let prefix = chars_of("- ");
    let mut items: Vec<String> = Vec::new();
    let mut i: usize = 0;
    assert(items.deep_view() =~= Seq::<Seq<char>>::empty());
    assert(all.skip(0) == all);
    while i < rows.len()
        invariant
            i <= rows.len(),
            all == rows.deep_view(),
            prefix@ == "- "@,
            all == trimmed_nonblank(ls.deep_view()),
            list_rows(all, marker@, source@) == match list_rows(
                all.skip(i as int),
                marker@,
                source@,
            ) {
                Err(e) => Err(e),
                Ok(rest) => Ok(items.deep_view() + rest),
            },
        decreases rows.len() - i,
    {
        let ghost rest = all.skip(i as int);
        assert(rest.drop_first() == all.skip(i + 1));
        assert(rest[0] == rows@[i as int]@) by {
            assert(rows@[i as int].deep_view() =~= rows@[i as int]@);
        }
        let row = &rows[i];
        assert(rest.len() > 0);
        if !starts_with_exec(row.as_slice(), prefix.as_slice()) {
            let e = located_around(source, ": '### ", marker, "' contains a non-list line");
            assert(list_rows(rest, marker@, source@) == Err::<Seq<Seq<char>>, Seq<char>>(e@));
            return Err(e);
        }
        let item = string_of(slice_vec(row.as_slice(), prefix.len(), row.len()).as_slice());
        let ghost before = items.deep_view();
        items.push(item);
        proof {
            let item_model = rest[0].skip(prefix@.len() as int);
            assert(items.deep_view() =~= before.push(item_model));
            match list_rows(rest.drop_first(), marker@, source@) {
                Err(e) => {},
                Ok(tail) => {
                    assert(before + (seq![item_model] + tail) == before.push(item_model) + tail);
                },
            }
        }
        i += 1;
    }
    assert(all.skip(i as int) =~= Seq::<Seq<char>>::empty());
    assert(items.deep_view() + Seq::<Seq<char>>::empty() == items.deep_view());
    if items.len() == 0 {
        return Err(located_around(source, ": list heading '### ", marker, "' has no items"));
    }
    Ok(items)
}

/// The style named after `### Callout: `.
fn parse_callout_style(value: &[char], source: &String) -> (res: Result<CalloutStyle, String>)
    ensures
        match res {
            Ok(style) => callout_style(value@, source@) == Ok::<CalloutStyle, Seq<char>>(style),
            Err(e) => callout_style(value@, source@) == Err::<CalloutStyle, Seq<char>>(e@),
        },
{
    let v = trim_vec(value);
    if is_literal(v.as_slice(), "tip") {
        Ok(CalloutStyle::Tip)
    } else if is_literal(v.as_slice(), "warning") {
        Ok(CalloutStyle::Warning)
    } else if is_literal(v.as_slice(), "pitfall") {
        Ok(CalloutStyle::Pitfall)
    } else if is_literal(v.as_slice(), "note") {
        Ok(CalloutStyle::Note)
    } else {
        Err(located_around(source, ": unknown callout style '", v.as_slice(), "'"))
    }
}

/// The steps of a `### Checklist: <phase>` block.
fn parse_checklist(ls: &Vec<Vec<char>>, marker: &[char], source: &String) -> (res: Result<Vec<ChecklistStepBlock>, String>)
    ensures
        match res {
            Ok(steps) => checklist_block(ls.deep_view(), marker@, source@) == Ok::<
                Seq<StepModel>,
                Seq<char>,
            >(steps.deep_view()),
            Err(e) => checklist_block(ls.deep_view(), marker@, source@) == Err::<
                Seq<StepModel>,
                Seq<char>,
            >(e@),
        },
{
    let rows = trimmed_nonblank_exec(ls);
    let ghost all = rows.deep_view();
    let number_mark = chars_of(". **");
    let title_mark = chars_of("** — ");
    let mut steps: Vec<ChecklistStepBlock> = Vec::new();
    let mut i: usize = 0;
    assert(steps.deep_view() =~= Seq::<StepModel>::empty());
    assert(all.skip(0) == all);
    while i < rows.len()
        invariant
            i <= rows.len(),
            all == rows.deep_view(),
            number_mark@ == ". **"@,
            title_mark@ == "** — "@,
            all == trimmed_nonblank(ls.deep_view()),
            checklist_rows(all, marker@, source@) == match checklist_rows(
                all.skip(i as int),
                marker@,
                source@,
            ) {
                Err(e) => Err(e),
                Ok(rest) => Ok(steps.deep_view() + rest),
            },
        decreases rows.len() - i,
    {
        let ghost rest = all.skip(i as int);
        assert(rest.drop_first() == all.skip(i + 1));
        assert(rest[0] == rows@[i as int]@) by {
            assert(rows@[i as int].deep_view() =~= rows@[i as int]@);
        }
        let row = &rows[i];
        let (number, after) = match split_once_exec(row.as_slice(), number_mark.as_slice()) {
            Some(parts) => parts,
            None => {
                return Err(
                    located_around(source, ": malformed checklist line in '### ", marker, "'"),
                );
            },
        };
        let n = match parse_u32(number.as_slice()) {
            Some(n) => n,
            None => {
                return Err(
                    located_around(source, ": invalid checklist number '", number.as_slice(), "'"),
                );
            },
        };
        let (title, detail) = match split_once_exec(after.as_slice(), title_mark.as_slice()) {
            Some(parts) => parts,
            None => {
                return Err(
                    located_around(source, ": malformed checklist line in '### ", marker, "'"),
                );
            },
        };
        let detail_trimmed = trim_vec(detail.as_slice());
        if title.len() == 0 || detail_trimmed.len() == 0 {
            return Err(
                located_around(source, ": incomplete checklist line in '### ", marker, "'"),
            );
        }
        let step = ChecklistStepBlock {
            number: n,
            title: string_of(title.as_slice()),
            detail: string_of(detail_trimmed.as_slice()),
        };
        let ghost model = step.deep_view();
        let ghost before = steps.deep_view();
        steps.push(step);
        proof {
            assert(steps.deep_view() =~= before.push(model));
            match checklist_rows(rest.drop_first(), marker@, source@) {
                Err(e) => {},
                Ok(tail) => {
                    assert(before + (seq![model] + tail) == before.push(model) + tail);
                },
            }
        }
        i += 1;
    }
    assert(all.skip(i as int) =~= Seq::<Seq<char>>::empty());
    assert(steps.deep_view() + Seq::<StepModel>::empty() == steps.deep_view());
    if steps.len() == 0 {
        return Err(located_around(source, ": checklist heading '### ", marker, "' has no steps"));
    }
    Ok(steps)
}

/// A text block, refused when its text is empty.
fn non_empty_block(block: HelpContentBlock, marker: &[char], source: &String) -> (res: Result<HelpContentBlock, String>)
    ensures
        match res {
            Ok(b) => non_empty(block.deep_view(), marker@, source@) == Ok::<BlockModel, Seq<char>>(
                b.deep_view(),
            ),
            Err(e) => non_empty(block.deep_view(), marker@, source@) == Err::<BlockModel, Seq<char>>(
                e@,
            ),
        },
{
    let empty = match &block {
        HelpContentBlock::Body { markdown } => markdown.as_str().unicode_len() == 0,
        HelpContentBlock::Advanced { markdown } => markdown.as_str().unicode_len() == 0,
        HelpContentBlock::Callout { text, .. } => text.as_str().unicode_len() == 0,
        _ => false,
    };
    if empty {
        Err(located_around(source, ": content heading '### ", marker, "' has no content"))
    } else {
        Ok(block)
    }
}

/// One `### <marker>` block with the lines under it.
fn parse_content_block(marker: &[char], ls: &Vec<Vec<char>>, source: &String) -> (res: Result<HelpContentBlock, String>)
    requires
        !content_block_aborts(marker@, ls.deep_view(), source@),
    ensures
        match res {
            Ok(b) => content_block(marker@, ls.deep_view(), source@) == Ok::<BlockModel, Seq<char>>(
                b.deep_view(),
            ),
            Err(e) => content_block(marker@, ls.deep_view(), source@) == Err::<
                BlockModel,
                Seq<char>,
            >(e@),
        },
{
    let newline = ['\n'];
    assert(newline@ == "\n"@) by {
        reveal_strlit("\n");
    }
    let joined = join_exec(ls, newline.as_slice());
    let text = string_of(trim_vec(joined.as_slice()).as_slice());
    if is_literal(marker, "Body") {
        non_empty_block(HelpContentBlock::Body { markdown: text }, marker, source)
    } else if is_literal(marker, "Bullet List") {
        match parse_markdown_list(ls, marker, source) {
            Ok(items) => Ok(HelpContentBlock::BulletList { items }),
            Err(e) => Err(e),
        }
    } else if is_literal(marker, "In This App") {
        match parse_markdown_list(ls, marker, source) {
            Ok(items) => Ok(HelpContentBlock::InApp { items }),
            Err(e) => Err(e),
        }
    } else if is_literal(marker, "Advanced Details") {
        non_empty_block(HelpContentBlock::Advanced { markdown: text }, marker, source)
    } else if is_literal(marker, "Table") {
        parse_table(ls, source)
    } else {
        let callout = chars_of("Callout: ");
        let checklist = chars_of("Checklist: ");
        if starts_with_exec(marker, callout.as_slice()) {
            let rest = slice_vec(marker, callout.len(), marker.len());
            match parse_callout_style(rest.as_slice(), source) {
                Ok(style) => non_empty_block(
                    HelpContentBlock::Callout { style, text },
                    marker,
                    source,
                ),
                Err(e) => Err(e),
            }
        } else if starts_with_exec(marker, checklist.as_slice()) {
            let phase_chars = slice_vec(marker, checklist.len(), marker.len());
            let phase = string_of(trim_vec(phase_chars.as_slice()).as_slice());
            match parse_checklist(ls, marker, source) {
                Ok(steps) => Ok(HelpContentBlock::Checklist { phase, steps }),
                Err(e) => Err(e),
            }
        } else {
            Err(located_around(source, ": unrecognized content heading '### ", marker, "'"))
        }
    }
}

/// `serde_json::from_str::<String>`: decodes one JSON string literal. The
/// contract only ties the result to the name `json_string` of the text; the
/// JSON grammar itself is serde_json's and is not restated here.
#[verifier::external_body]
fn decode_json_string(text: &str) -> (res: Result<String, String>)
    ensures
        match res {
            Ok(v) => json_string(text@) == Ok::<Seq<char>, Seq<char>>(v@),
            Err(e) => json_string(text@) == Err::<Seq<char>, Seq<char>>(e@),
        },
{
    serde_json::from_str::<String>(text).map_err(|error| error.to_string())
}

/// A front-matter value.
fn parse_front_matter_value(value: &[char], source: &String) -> (res: Result<String, String>)
    ensures
        match res {
            Ok(v) => front_matter_value(value@, source@) == Ok::<Seq<char>, Seq<char>>(v@),
            Err(e) => front_matter_value(value@, source@) == Err::<Seq<char>, Seq<char>>(e@),
        },
{
    let quote = ['"'];
    assert(quote@ == seq!['"']);
    let text = string_of(value);
    if starts_with_exec(value, quote.as_slice()) {
        match decode_json_string(text.as_str()) {
            Ok(v) => Ok(v),
            Err(e) => {
                let m = concat_str(
                    located_exec(source, ": invalid quoted front-matter value: "),
                    e.as_str(),
                );
                assert(source@ + ": invalid quoted front-matter value: "@ + e@ == source@ + (
                ": invalid quoted front-matter value: "@ + e@));
                Err(m)
            },
        }
    } else {
        Ok(text)
    }
}

/// The `key: value` pairs of the front matter.
fn parse_front_matter(ls: &Vec<Vec<char>>, source: &String) -> (res: Result<Vec<(Vec<char>, String)>, String>)
    ensures
        match res {
            Ok(fields) => front_matter_fields(ls.deep_view(), source@) == Ok::<
                Seq<(Seq<char>, Seq<char>)>,
                Seq<char>,
            >(fields_model(fields@)),
            Err(e) => front_matter_fields(ls.deep_view(), source@) == Err::<
                Seq<(Seq<char>, Seq<char>)>,
                Seq<char>,
            >(e@),
        },
{
    let colon = [':'];
    assert(colon@ == ":"@) by {
        reveal_strlit(":");
    }
    let ghost all = ls.deep_view();
    let mut fields: Vec<(Vec<char>, String)> = Vec::new();
    let mut i: usize = 0;
    assert(fields_model(fields@) =~= Seq::<(Seq<char>, Seq<char>)>::empty());
    assert(all.skip(0) == all);
    while i < ls.len()
        invariant
            i <= ls.len(),
            all == ls.deep_view(),
            colon@ == ":"@,
            front_matter_fields(all, source@) == match front_matter_fields(
                all.skip(i as int),
                source@,
            ) {
                Err(e) => Err(e),
                Ok(rest) => Ok(fields_model(fields@) + rest),
            },
        decreases ls.len() - i,
    {
        let ghost rest = all.skip(i as int);
        assert(rest.drop_first() == all.skip(i + 1));
        assert(rest[0] == ls@[i as int]@) by {
            assert(ls@[i as int].deep_view() =~= ls@[i as int]@);
        }
        let line = &ls[i];
        let t = trim_vec(line.as_slice());
        if t.len() > 0 {
            let (key, value) = match split_once_exec(line.as_slice(), colon.as_slice()) {
                Some(parts) => parts,
                None => {
                    return Err(
                        located_around(
                            source,
                            ": malformed front-matter line '",
                            line.as_slice(),
                            "'",
                        ),
                    );
                },
            };
            let v = match parse_front_matter_value(trim_vec(value.as_slice()).as_slice(), source) {
                Ok(v) => v,
                Err(e) => return Err(e),
            };
            let k = trim_vec(key.as_slice());
            let ghost before = fields@;
            let ghost entry = (k@, v@);
            fields.push((k, v));
            proof {
                assert(fields_model(fields@) =~= fields_model(before).push(entry));
                match front_matter_fields(rest.drop_first(), source@) {
                    Err(e) => {},
                    Ok(tail) => {
                        assert(fields_model(before) + (seq![entry] + tail) == fields_model(
                            before,
                        ).push(entry) + tail);
                    },
                }
            }
        }
        i += 1;
    }
    assert(all.skip(i as int) =~= Seq::<Seq<char>>::empty());
    assert(fields_model(fields@) + Seq::<(Seq<char>, Seq<char>)>::empty() == fields_model(
        fields@,
    ));
    Ok(fields)
}

/// Fields as plain values.
pub open spec fn fields_model(fields: Seq<(Vec<char>, String)>) -> Seq<(Seq<char>, Seq<char>)> {
    fields.map_values(|f: (Vec<char>, String)| (f.0@, f.1@))
}

/// The value of the last field named `key`.
fn field_exec(fields: &Vec<(Vec<char>, String)>, key: &str) -> (res: Option<String>)
    ensures
        match res {
            Some(v) => field(fields_model(fields@), key@) == Some(v@),
            None => field(fields_model(fields@), key@) is None,
        },
{
    let k = chars_of(key);
    let mut i = fields.len();
    assert(fields_model(fields@).take(i as int) == fields_model(fields@));
    while i > 0
        invariant
            i <= fields.len(),
            k@ == key@,
            field(fields_model(fields@), key@) == field(fields_model(fields@).take(i as int), key@),
        decreases i,
    {
        let ghost prefix = fields_model(fields@).take(i as int);
        assert(prefix.last() == (fields@[i - 1].0@, fields@[i - 1].1@));
        assert(prefix.drop_last() == fields_model(fields@).take(i - 1));
        if chars_eq(fields[i - 1].0.as_slice(), k.as_slice()) {
            return Some(fields[i - 1].1.clone());
        }
        i -= 1;
    }
    None
}

/// The copies of the lines `ls[from..to]`.
fn sublines(ls: &Vec<Vec<char>>, from: usize, to: usize) -> (res: Vec<Vec<char>>)
    requires
        from <= to <= ls.len(),
    ensures
        res.deep_view() == ls.deep_view().subrange(from as int, to as int),
{
    let mut res: Vec<Vec<char>> = Vec::new();
    let mut i = from;
    assert(res.deep_view() =~= ls.deep_view().subrange(from as int, from as int));
    while i < to
        invariant
            from <= i <= to <= ls.len(),
            res.deep_view() == ls.deep_view().subrange(from as int, i as int),
        decreases to - i,
    {
        let line = &ls[i];
        let copy = slice_vec(line.as_slice(), 0, line.len());
        let ghost before = res;
        let ghost pushed = copy;
        res.push(copy);
        proof {
            assert(pushed@ =~= line@);
            lemma_push_deep_view(before, pushed, res);
            assert(line.deep_view() =~= line@);
            assert(res.deep_view() =~= ls.deep_view().subrange(from as int, i + 1));
        }
        i += 1;
    }
    res
}

/// The index of the first heading line at or after `from`.
fn next_heading(ls: &Vec<Vec<char>>, from: usize, mark: &[char]) -> (res: usize)
    requires
        from <= ls.len(),
        mark@ == "### "@,
    ensures
        from <= res <= ls.len(),
        first_heading(ls.deep_view().skip(from as int)) == res - from,
{
    let ghost rest = ls.deep_view().skip(from as int);
    let mut i = from;
    while i < ls.len() && !starts_with_exec(ls[i].as_slice(), mark)
        invariant
            from <= i <= ls.len(),
            mark@ == "### "@,
            rest == ls.deep_view().skip(from as int),
            forall|j: int| 0 <= j < i - from ==> !is_heading(#[trigger] rest[j]),
        decreases ls.len() - i,
    {
        proof {
            assert(rest[i - from] == ls@[i as int]@) by {
                assert(ls@[i as int].deep_view() =~= ls@[i as int]@);
            }
        }
        i += 1;
    }
    proof {
        if i < ls.len() {
            assert(rest[i - from] == ls@[i as int]@) by {
                assert(ls@[i as int].deep_view() =~= ls@[i as int]@);
            }
        }
        lemma_first_heading_at(rest, i - from);
    }
    i
}

/// The body of a topic: its preamble and its blocks.
fn parse_content_blocks(body: &[char], source: &String) -> (res: Result<(String, Vec<HelpContentBlock>), String>)
    requires
        !content_blocks_abort(body@, source@),
    ensures
        match res {
            Ok(parsed) => content_blocks(body@, source@) == Ok::<
                (Seq<char>, Seq<BlockModel>),
                Seq<char>,
            >((parsed.0@, parsed.1.deep_view())),
            Err(e) => content_blocks(body@, source@) == Err::<
                (Seq<char>, Seq<BlockModel>),
                Seq<char>,
            >(e@),
        },
{
    let mark = chars_of("### ");
    let ls = lines_exec(body);
    let ghost all = ls.deep_view();
    let h = next_heading(&ls, 0, mark.as_slice());
    assert(all.skip(0) == all);
    if h == ls.len() {
        let none: Vec<HelpContentBlock> = Vec::new();
        assert(none.deep_view() =~= Seq::<BlockModel>::empty());
        return Ok((string_of(trim_vec(body).as_slice()), none));
    }
    let mut out: Vec<HelpContentBlock> = Vec::new();
    let mut p = h;
    assert(out.deep_view() =~= Seq::<BlockModel>::empty());
    proof {
        lemma_first_heading_bounds(all);
        assert(is_heading(all[h as int]));
    }
    while p < ls.len()
        invariant
            h <= p <= ls.len(),
            h < ls.len(),
            mark@ == "### "@,
            all == ls.deep_view(),
            all == lines(body@),
            first_heading(all) == h as int,
            p < ls.len() ==> is_heading(all[p as int]),
            sections(group_blocks(all.skip(h as int)), source@) == match sections(
                group_blocks(all.skip(p as int)),
                source@,
            ) {
                Err(e) => Err(e),
                Ok(rest) => Ok(out.deep_view() + rest),
            },
            !sections_abort(group_blocks(all.skip(p as int)), source@),
        decreases ls.len() - p,
    {
        let line = &ls[p];
        assert(all[p as int] == line@) by {
            assert(line.deep_view() =~= line@);
        }
        let marker = trim_vec(slice_vec(line.as_slice(), mark.len(), line.len()).as_slice());
        let q = next_heading(&ls, p + 1, mark.as_slice());
        let block_lines = sublines(&ls, p + 1, q);
        let ghost here = all.skip(p as int);
        let ghost tail = here.drop_first();
        proof {
            assert(tail == all.skip(p + 1));
            assert(line@.skip(mark@.len() as int) == line@.subrange(
                mark@.len() as int,
                line@.len() as int,
            ));
            assert(tail.take(q - (p + 1)) == all.subrange(p + 1, q as int));
            assert(tail.skip(q - (p + 1)) == all.skip(q as int));
            assert(group_blocks(here) == seq![(marker@, block_lines.deep_view())] + group_blocks(
                all.skip(q as int),
            ));
            assert(group_blocks(here)[0] == (marker@, block_lines.deep_view()));
            assert(group_blocks(here).drop_first() == group_blocks(all.skip(q as int)));
            lemma_first_heading_bounds(tail);
            if q < ls.len() {
                assert(all[q as int] == tail[q - (p + 1)]);
            }
        }
        let block = match parse_content_block(marker.as_slice(), &block_lines, source) {
            Ok(b) => b,
            Err(e) => {
                assert(sections(group_blocks(here), source@) == Err::<Seq<BlockModel>, Seq<char>>(
                    e@,
                ));
                return Err(e);
            },
        };
        let ghost model = block.deep_view();
        let ghost before = out.deep_view();
        out.push(block);
        proof {
            assert(out.deep_view() =~= before.push(model));
            match sections(group_blocks(all.skip(q as int)), source@) {
                Err(e) => {},
                Ok(tail_secs) => {
                    assert(before + (seq![model] + tail_secs) == before.push(model) + tail_secs);
                },
            }
        }
        p = q;
    }
    assert(all.skip(p as int) =~= Seq::<Seq<char>>::empty());
    assert(out.deep_view() + Seq::<BlockModel>::empty() == out.deep_view());
    let preamble = sublines(&ls, 0, h);
    let newline = ['\n'];
    assert(newline@ == "\n"@) by {
        reveal_strlit("\n");
    }
    let joined = join_exec(&preamble, newline.as_slice());
    assert(all.subrange(0, h as int) == all.take(h as int));
    let text = string_of(trim_vec(joined.as_slice()).as_slice());
    Ok((text, out))
}

proof fn lemma_strip_start_at(s: Seq<char>, a: int)
    requires
        0 <= a <= s.len(),
        forall|k: int| 0 <= k < a ==> is_bracket(#[trigger] s[k]),
        a == s.len() || !is_bracket(s[a]),
    ensures
        strip_brackets_start(s) == s.subrange(a, s.len() as int),
    decreases a,
{
    if a == 0 {
        assert(s.subrange(0, s.len() as int) == s);
    } else {
        let t = s.drop_first();
        assert forall|k: int| 0 <= k < a - 1 implies is_bracket(#[trigger] t[k]) by {
            assert(t[k] == s[k + 1]);
        }
        if a - 1 < t.len() {
            assert(t[a - 1] == s[a]);
        }
        lemma_strip_start_at(t, a - 1);
        assert(t.subrange(a - 1, t.len() as int) == s.subrange(a, s.len() as int));
    }
}

proof fn lemma_strip_end_at(s: Seq<char>, b: int)
    requires
        0 <= b <= s.len(),
        forall|k: int| b <= k < s.len() ==> is_bracket(#[trigger] s[k]),
        b == 0 || !is_bracket(s[b - 1]),
    ensures
        strip_brackets_end(s) == s.subrange(0, b),
    decreases s.len() - b,
{
    if b == s.len() {
        assert(s.subrange(0, b) == s);
    } else {
        let t = s.drop_last();
        assert forall|k: int| b <= k < t.len() implies is_bracket(#[trigger] t[k]) by {
            assert(t[k] == s[k]);
        }
        if b > 0 {
            assert(t[b - 1] == s[b - 1]);
        }
        lemma_strip_end_at(t, b);
        assert(t.subrange(0, b) == s.subrange(0, b));
    }
}

/// `str::trim_matches(['[', ']'])`.
fn strip_brackets(s: &[char]) -> (res: Vec<char>)
    ensures
        res@ == strip_brackets_end(strip_brackets_start(s@)),
{
    let mut a: usize = 0;
    while a < s.len() && (s[a] == '[' || s[a] == ']')
        invariant
            a <= s.len(),
            forall|k: int| 0 <= k < a ==> is_bracket(#[trigger] s@[k]),
        decreases s.len() - a,
    {
        a += 1;
    }
    proof {
        lemma_strip_start_at(s@, a as int);
    }
    let mut b: usize = s.len();
    while b > a && (s[b - 1] == '[' || s[b - 1] == ']')
        invariant
            a <= b <= s.len(),
            forall|k: int| b <= k < s.len() ==> is_bracket(#[trigger] s@[k]),
        decreases b,
    {
        b -= 1;
    }
    proof {
        let t = s@.subrange(a as int, s.len() as int);
        let bb = b - a;
        assert forall|k: int| bb <= k < t.len() implies is_bracket(#[trigger] t[k]) by {
            assert(t[k] == s@[k + a]);
        }
        if bb > 0 {
            assert(t[bb - 1] == s@[b - 1]);
        }
        lemma_strip_end_at(t, bb);
        assert(t.subrange(0, bb) == s@.subrange(a as int, b as int));
    }
    slice_vec(s, a, b)
}

/// The ids listed in `relatedIds`.
fn parse_related_ids(fields: &Vec<(Vec<char>, String)>) -> (res: Vec<String>)
    ensures
        res.deep_view() == related_ids(fields_model(fields@)),
{
    match field_exec(fields, "relatedIds") {
        Some(value) => {
            let cs = chars_of(value.as_str());
            let stripped = strip_brackets(cs.as_slice());
            let parts = split_exec(stripped.as_slice(), ',');
            let ids = trimmed_nonblank_exec(&parts);
            strings_of(&ids)
        },
        None => {
            let none: Vec<String> = Vec::new();
            assert(none.deep_view() =~= Seq::<Seq<char>>::empty());
            none
        },
    }
}

/// The error for a missing required field.
fn missing_field(source: &String, key: &str) -> (res: String)
    ensures
        res@ == located(source@, ": missing "@ + key@),
{
    let m = concat_str(located_exec(source, ": missing "), key);
    assert(source@ + ": missing "@ + key@ == source@ + (": missing "@ + key@));
    m
}

/// Parses one handbook topic: YAML front matter between `---` lines (the
/// fields `id`, `title` and `category` are required), then a Markdown body
/// whose `### ` headings open typed content blocks. `source` names the file
/// in every error message. Windows line endings are accepted.
pub fn parse_topic(text: &str, source: String) -> (res: Result<HelpTopic, String>)
    requires
        !parse_topic_aborts(text@, source@),
    ensures
        match res {
            Ok(topic) => parse_topic_spec(text@, source@) == Ok::<TopicModel, Seq<char>>(
                topic.deep_view(),
            ),
            Err(e) => parse_topic_spec(text@, source@) == Err::<TopicModel, Seq<char>>(e@),
        },
{
    let cs = chars_of(text);
    let normalized = crlf_to_lf_exec(cs.as_slice());
    let open = chars_of("---\n");
    if !starts_with_exec(normalized.as_slice(), open.as_slice()) {
        return Err(located_exec(&source, ": missing YAML front matter"));
    }
    let rest = slice_vec(normalized.as_slice(), open.len(), normalized.len());
    assert(rest@ == normalized@.skip(open@.len() as int));
    let close = chars_of("\n---\n");
    let (front, body) = match split_once_exec(rest.as_slice(), close.as_slice()) {
        Some(parts) => parts,
        None => return Err(located_exec(&source, ": unterminated YAML front matter")),
    };
    let front_lines = lines_exec(front.as_slice());
    let fields = match parse_front_matter(&front_lines, &source) {
        Ok(f) => f,
        Err(e) => return Err(e),
    };
    let (text_body, sections) = match parse_content_blocks(body.as_slice(), &source) {
        Ok(parsed) => parsed,
        Err(e) => return Err(e),
    };
    let help_id = match field_exec(&fields, "id") {
        Some(v) => v,
        None => return Err(missing_field(&source, "id")),
    };
    let title = match field_exec(&fields, "title") {
        Some(v) => v,
        None => return Err(missing_field(&source, "title")),
    };
    let category = match field_exec(&fields, "category") {
        Some(v) => v,
        None => return Err(missing_field(&source, "category")),
    };
    let subtitle = field_exec(&fields, "subtitle");
    let analogy = field_exec(&fields, "analogy");
    let related_ids = parse_related_ids(&fields);
    let topic = HelpTopic {
        help_id,
        title,
        subtitle,
        analogy,
        body: text_body,
        category,
        related_ids,
        sections,
    };
    proof {
        assert(topic.subtitle.deep_view() == field(fields_model(fields@), "subtitle"@));
        assert(topic.analogy.deep_view() == field(fields_model(fields@), "analogy"@));
    }
    Ok(topic)
}

// ---------------------------------------------------------------------------
// The handbook as a whole.
// ---------------------------------------------------------------------------

/// `a` sorts before `b`: the order of `String`, character by character by
/// code point, a proper prefix first.
pub open spec fn seq_less(a: Seq<char>, b: Seq<char>) -> bool
    decreases a.len(),
{
    if a.len() == 0 {
        b.len() > 0
    } else if b.len() == 0 {
        false
    } else if a[0] != b[0] {
        a[0] < b[0]
    } else {
        seq_less(a.drop_first(), b.drop_first())
    }
}

/// Ids sort as `String`s do: an id sorts before every longer id that it
/// begins with, never after it, and two ids that agree up to some position
/// and differ there sort by the code points at that position.
pub proof fn law_id_order(a: Seq<char>, b: Seq<char>, i: int)
    ensures
        b.len() > 0 ==> seq_less(a, a + b) && !seq_less(a + b, a),
        0 <= i < a.len() && i < b.len() && a.take(i) == b.take(i) && a[i] < b[i] ==> seq_less(a, b)
            && !seq_less(b, a),
    decreases a.len(),
{
    if a.len() > 0 {
        law_id_order(a.drop_first(), b, i);
        assert((a + b).drop_first() == a.drop_first() + b);
        assert((a + b)[0] == a[0]);
        if 0 < i < a.len() && i < b.len() && a.take(i) == b.take(i) && a[i] < b[i] {
            assert(a[0] == a.take(i)[0] && b[0] == b.take(i)[0]);
            assert(a.drop_first().take(i - 1) =~= a.take(i).drop_first());
            assert(b.drop_first().take(i - 1) =~= b.take(i).drop_first());
            law_id_order(a.drop_first(), b.drop_first(), i - 1);
        }
    } else {
        assert(a + b =~= b);
    }
}

/// `seq_less` is transitive.
pub proof fn lemma_seq_less_transitive(a: Seq<char>, b: Seq<char>, c: Seq<char>)
    requires
        seq_less(a, b),
        seq_less(b, c),
    ensures
        seq_less(a, c),
    decreases a.len(),
{
    if a.len() > 0 && b.len() > 0 && c.len() > 0 && a[0] == b[0] && b[0] == c[0] {
        lemma_seq_less_transitive(a.drop_first(), b.drop_first(), c.drop_first());
    }
}

/// Of two different sequences, one sorts before the other, never both.
pub proof fn lemma_seq_less_total(a: Seq<char>, b: Seq<char>)
    ensures
        a != b ==> (seq_less(a, b) || seq_less(b, a)),
        !(seq_less(a, b) && seq_less(b, a)),
        !seq_less(a, a),
    decreases a.len(),
{
    if a.len() > 0 && b.len() > 0 && a[0] == b[0] {
        lemma_seq_less_total(a.drop_first(), b.drop_first());
        if a != b {
            if a.drop_first() == b.drop_first() {
                assert(a == seq![a[0]] + a.drop_first());
                assert(b == seq![b[0]] + b.drop_first());
            }
        }
    }
    if a.len() > 0 {
        lemma_seq_less_total(a.drop_first(), a.drop_first());
    }
    if a.len() > 0 && b.len() > 0 && a[0] != b[0] {
        assert(a[0] < b[0] || b[0] < a[0]);
    }
    if a.len() == 0 && b.len() == 0 {
        assert(a == b);
    }
}

/// Whether `a` sorts before `b`.
fn seq_less_exec(a: &[char], b: &[char]) -> (res: bool)
    ensures
        res == seq_less(a@, b@),
{
    let mut i: usize = 0;
    assert(a@.skip(0) == a@);
    assert(b@.skip(0) == b@);
    while i < a.len() && i < b.len() && a[i] == b[i]
        invariant
            i <= a.len(),
            i <= b.len(),
            seq_less(a@, b@) == seq_less(a@.skip(i as int), b@.skip(i as int)),
        decreases a.len() - i,
    {
        assert(a@.skip(i as int).drop_first() == a@.skip(i + 1));
        assert(b@.skip(i as int).drop_first() == b@.skip(i + 1));
        i += 1;
    }
    let ghost ra = a@.skip(i as int);
    let ghost rb = b@.skip(i as int);
    if i == a.len() {
        assert(ra.len() == 0);
        i < b.len()
    } else if i == b.len() {
        assert(rb.len() == 0);
        false
    } else {
        let x = a[i];
        let y = b[i];
        assert(ra[0] == x);
        assert(rb[0] == y);
        x < y
    }
}

/// Whether the id of `topic` sorts before `id`.
fn id_sorts_before(topic: &HelpTopic, id: &[char]) -> (res: bool)
    ensures
        res == seq_less(topic.help_id@, id@),
{
    let other = chars_of(topic.help_id.as_str());
    seq_less_exec(other.as_slice(), id)
}

/// Topics in strictly increasing order of their ids.
pub open spec fn sorted_by_id(topics: Seq<TopicModel>) -> bool {
    forall|i: int, j: int|
        0 <= i < j < topics.len() ==> seq_less(
            #[trigger] topics[i].help_id,
            #[trigger] topics[j].help_id,
        )
}

/// The topic with the id `help_id`, if any.
pub open spec fn topic_with_id(topics: Seq<TopicModel>, help_id: Seq<char>) -> Option<TopicModel> {
    if exists|i: int| 0 <= i < topics.len() && topics[i].help_id == help_id {
        Some(topics[choose|i: int| 0 <= i < topics.len() && topics[i].help_id == help_id])
    } else {
        None
    }
}

/// The compiled handbook: every topic once, by id.
#[derive(Debug)]
pub struct HelpContent {
    topics: Vec<HelpTopic>,
}

impl HelpContent {
    /// The topics in id order.
    pub closed spec fn model(&self) -> Seq<TopicModel> {
        self.topics.deep_view()
    }

    #[verifier::type_invariant]
    spec fn well_formed(&self) -> bool {
        sorted_by_id(self.topics.deep_view())
    }

    /// The handbook with no topic.
    pub fn new() -> (res: Self)
        ensures
            res.model() == Seq::<TopicModel>::empty(),
            sorted_by_id(res.model()),
    {
        let topics: Vec<HelpTopic> = Vec::new();
        assert(topics.deep_view() =~= Seq::<TopicModel>::empty());
        HelpContent { topics }
    }

    /// Adds a topic unless one with the same id is present; `false` then,
    /// and the handbook is unchanged.
    pub fn insert(&mut self, topic: HelpTopic) -> (added: bool)
        ensures
            sorted_by_id(final(self).model()),
            added == (topic_with_id(old(self).model(), topic.help_id@) is None),
            added ==> forall|t: TopicModel|
                final(self).model().contains(t) <==> (old(self).model().contains(t) || t
                    == topic.deep_view()),
            !added ==> final(self).model() == old(self).model(),
            sorted_by_id(old(self).model()),
            final(self).model().len() == old(self).model().len() + if added {
                1int
            } else {
                0int
            },
    {
        proof {
            use_type_invariant(&*self);
        }
        let ghost old_model = self.topics.deep_view();
        let id = chars_of(topic.help_id.as_str());
        let mut k: usize = 0;
        while k < self.topics.len() && id_sorts_before(&self.topics[k], id.as_slice())
            invariant
                k <= self.topics.len(),
                self.topics.deep_view() == old_model,
                sorted_by_id(old_model),
                id@ == topic.help_id@,
                forall|j: int| 0 <= j < k ==> seq_less(#[trigger] old_model[j].help_id, id@),
            decreases self.topics.len() - k,
        {
            k += 1;
        }
        if k < self.topics.len() {
            let other = chars_of(self.topics[k].help_id.as_str());
            if chars_eq(other.as_slice(), id.as_slice()) {
                assert(old_model[k as int].help_id == topic.help_id@);
                assert(topic_with_id(old_model, topic.help_id@) is Some);
                return false;
            }
        }
        proof {
            // No present topic has this id: those before `k` sort before it,
            // those from `k` on sort after it.
            if k < old_model.len() {
                lemma_seq_less_total(old_model[k as int].help_id, id@);
            }
            assert forall|j: int| 0 <= j < old_model.len() implies old_model[j].help_id
                != topic.help_id@ by {
                if j < k {
                    lemma_seq_less_total(old_model[j].help_id, id@);
                } else if j > k {
                    lemma_seq_less_transitive(id@, old_model[k as int].help_id, old_model[j].help_id);
                    lemma_seq_less_total(old_model[j].help_id, id@);
                } else {
                    lemma_seq_less_total(old_model[j].help_id, id@);
                }
            }
        }
        let ghost model = topic.deep_view();
        let mut topics: Vec<HelpTopic> = Vec::new();
        std::mem::swap(&mut topics, &mut self.topics);
        topics.insert(k, topic);
        proof {
            let new_model = topics.deep_view();
            assert(new_model =~= old_model.insert(k as int, model));
            assert forall|i: int, j: int| 0 <= i < j < new_model.len() implies seq_less(
                #[trigger] new_model[i].help_id,
                #[trigger] new_model[j].help_id,
            ) by {
                if j < k {
                } else if j == k {
                    assert(new_model[i] == old_model[i]);
                } else if i < k {
                    assert(new_model[j] == old_model[j - 1]);
                    if k < old_model.len() {
                        lemma_seq_less_transitive(old_model[i].help_id, id@, old_model[k as int].help_id);
                        if j - 1 > k {
                            lemma_seq_less_transitive(old_model[i].help_id, old_model[k as int].help_id, old_model[j - 1].help_id);
                        }
                    }
                } else if i == k {
                    assert(new_model[j] == old_model[j - 1]);
                    if j - 1 > k {
                        lemma_seq_less_transitive(id@, old_model[k as int].help_id, old_model[j - 1].help_id);
                    }
                } else {
                    assert(new_model[i] == old_model[i - 1]);
                    assert(new_model[j] == old_model[j - 1]);
                }
            }
            assert forall|t: TopicModel| new_model.contains(t) <==> (old_model.contains(t) || t
                == model) by {
                if new_model.contains(t) {
                    let i = choose|i: int| 0 <= i < new_model.len() && new_model[i] == t;
                    if i < k {
                        assert(old_model[i] == t);
                    } else if i > k {
                        assert(old_model[i - 1] == t);
                    }
                }
                if old_model.contains(t) {
                    let i = choose|i: int| 0 <= i < old_model.len() && old_model[i] == t;
                    if i < k {
                        assert(new_model[i] == t);
                    } else {
                        assert(new_model[i + 1] == t);
                    }
                }
                if t == model {
                    assert(new_model[k as int] == t);
                }
            }
        }
        self.topics = topics;
        true
    }

    /// The topic with the id `help_id`.
    pub fn topic(&self, help_id: &str) -> (res: Option<&HelpTopic>)
        ensures
            match res {
                Some(t) => topic_with_id(self.model(), help_id@) == Some(t.deep_view()),
                None => topic_with_id(self.model(), help_id@) is None,
            },
    {
        let id = chars_of(help_id);
        let mut i: usize = 0;
        while i < self.topics.len()
            invariant
                i <= self.topics.len(),
                id@ == help_id@,
                forall|j: int| 0 <= j < i ==> (#[trigger] self.topics.deep_view()[j]).help_id != help_id@,
            decreases self.topics.len() - i,
        {
            let other = chars_of(self.topics[i].help_id.as_str());
            if chars_eq(other.as_slice(), id.as_slice()) {
                proof {
                    use_type_invariant(self);
                    let m = self.topics.deep_view();
                    let c = choose|j: int| 0 <= j < m.len() && m[j].help_id == help_id@;
                    if c != i {
                        if c < i {
                            lemma_seq_less_total(m[c].help_id, m[i as int].help_id);
                        } else {
                            lemma_seq_less_total(m[i as int].help_id, m[c].help_id);
                        }
                    }
                }
                return Some(&self.topics[i]);
            }
            i += 1;
        }
        None
    }

    /// The catalog: one entry per topic, in id order.
    pub fn catalog(&self) -> (res: HelpCatalog)
        ensures
            res.topics@.len() == self.model().len(),
            forall|i: int|
                0 <= i < self.model().len() ==> {
                    &&& (#[trigger] res.topics@[i]).help_id@ == self.model()[i].help_id
                    &&& res.topics@[i].title@ == self.model()[i].title
                    &&& res.topics@[i].category@ == self.model()[i].category
                },
    {
        let mut entries: Vec<HelpCatalogEntry> = Vec::new();
        let mut i: usize = 0;
        while i < self.topics.len()
            invariant
                i <= self.topics.len(),
                entries@.len() == i,
                forall|j: int|
                    0 <= j < i ==> {
                        &&& (#[trigger] entries@[j]).help_id@ == self.topics@[j].help_id@
                        &&& entries@[j].title@ == self.topics@[j].title@
                        &&& entries@[j].category@ == self.topics@[j].category@
                    },
            decreases self.topics.len() - i,
        {
            let t = &self.topics[i];
            entries.push(
                HelpCatalogEntry {
                    help_id: t.help_id.clone(),
                    title: t.title.clone(),
                    category: t.category.clone(),
                },
            );
            i += 1;
        }
        HelpCatalog { topics: entries }
    }
}

/// The index of the last `c` in `s`, or `-1`.
pub open spec fn last_index_of(s: Seq<char>, c: char) -> int
    decreases s.len(),
{
    if s.len() == 0 {
        -1
    } else if s.last() == c {
        s.len() - 1
    } else {
        last_index_of(s.drop_last(), c)
    }
}

proof fn lemma_last_index_of_bounds(s: Seq<char>, c: char)
    ensures
        -1 <= last_index_of(s, c) < s.len(),
    decreases s.len(),
{
    if s.len() > 0 && s.last() != c {
        lemma_last_index_of_bounds(s.drop_last(), c);
    }
}

/// The file name of a path: what follows its last `/`.
pub open spec fn file_name(path: Seq<char>) -> Seq<char> {
    path.skip(last_index_of(path, '/') + 1)
}

/// A path whose extension (`Path::extension`) is `md`: the file name holds a
/// `.` that is not its first character, and `md` follows the last one.
pub open spec fn is_markdown_path(path: Seq<char>) -> bool {
    let name = file_name(path);
    let dot = last_index_of(name, '.');
    dot > 0 && name.skip(dot + 1) == "md"@
}

fn last_index_of_exec(s: &[char], c: char) -> (res: Option<usize>)
    ensures
        match res {
            Some(i) => last_index_of(s@, c) == i as int && i < s.len(),
            None => last_index_of(s@, c) == -1,
        },
{
    let mut i = s.len();
    assert(s@.take(i as int) == s@);
    while i > 0
        invariant
            i <= s.len(),
            last_index_of(s@, c) == last_index_of(s@.take(i as int), c),
        decreases i,
    {
        assert(s@.take(i as int).drop_last() == s@.take(i - 1));
        if s[i - 1] == c {
            return Some(i - 1);
        }
        i -= 1;
    }
    None
}

/// Whether the path names a Markdown file.
fn is_markdown_path_exec(path: &[char]) -> (res: bool)
    ensures
        res == is_markdown_path(path@),
{
    let start = match last_index_of_exec(path, '/') {
        Some(i) => i + 1,
        None => 0,
    };
    proof {
        lemma_last_index_of_bounds(path@, '/');
    }
    let name = slice_vec(path, start, path.len());
    assert(name@ == file_name(path@));
    match last_index_of_exec(name.as_slice(), '.') {
        Some(dot) => {
            if dot == 0 {
                return false;
            }
            let ext = slice_vec(name.as_slice(), dot + 1, name.len());
            assert(ext@ == name@.skip(dot + 1));
            is_literal(ext.as_slice(), "md")
        },
        None => false,
    }
}

/// Documents as plain values: `(path, text)`.
pub open spec fn documents_model(docs: Seq<(String, String)>) -> Seq<(Seq<char>, Seq<char>)> {
    docs.map_values(|d: (String, String)| (d.0@, d.1@))
}

/// The topics of the Markdown documents, in document order: each parsed
/// with its path as the source; the first failure, or the first id already
/// taken, stops the reading. Other documents are skipped.
pub open spec fn collect_topics(docs: Seq<(Seq<char>, Seq<char>)>, taken: Set<Seq<char>>) -> Result<
    Seq<TopicModel>,
    Seq<char>,
>
    decreases docs.len(),
{
    if docs.len() == 0 {
        Ok(seq![])
    } else if !is_markdown_path(docs[0].0) {
        collect_topics(docs.drop_first(), taken)
    } else {
        match parse_topic_spec(docs[0].1, docs[0].0) {
            Err(e) => Err(e),
            Ok(t) => if taken.contains(t.help_id) {
                Err("duplicate help id in "@ + docs[0].0)
            } else {
                match collect_topics(docs.drop_first(), taken.insert(t.help_id)) {
                    Err(e) => Err(e),
                    Ok(rest) => Ok(seq![t] + rest),
                }
            },
        }
    }
}

/// Reading the documents in order reaches a bare `|` table row.
pub open spec fn collect_topics_aborts(docs: Seq<(Seq<char>, Seq<char>)>, taken: Set<Seq<char>>) -> bool
    decreases docs.len(),
{
    if docs.len() == 0 {
        false
    } else if !is_markdown_path(docs[0].0) {
        collect_topics_aborts(docs.drop_first(), taken)
    } else {
        parse_topic_aborts(docs[0].1, docs[0].0) || match parse_topic_spec(docs[0].1, docs[0].0) {
            Err(_) => false,
            Ok(t) => !taken.contains(t.help_id) && collect_topics_aborts(
                docs.drop_first(),
                taken.insert(t.help_id),
            ),
        }
    }
}

/// The ids of the given topics.
pub open spec fn ids_of(topics: Seq<TopicModel>) -> Set<Seq<char>> {
    Set::new(|id: Seq<char>| exists|i: int| 0 <= i < topics.len() && topics[i].help_id == id)
}

impl HelpContent {
    /// Compiles the handbook from `(path, text)` documents: every document
    /// whose path has the extension `md` is a topic; two topics with one id,
    /// or none at all, are errors.
    pub fn from_documents(documents: &Vec<(String, String)>) -> (res: Result<HelpContent, String>)
        requires
            !collect_topics_aborts(documents_model(documents@), Set::empty()),
        ensures
            match res {
                Ok(content) => {
                    &&& collect_topics(documents_model(documents@), Set::empty()) matches Ok(ts)
                    &&& ts.len() > 0
                    &&& sorted_by_id(content.model())
                    &&& content.model().len() == ts.len()
                    &&& forall|t: TopicModel| content.model().contains(t) <==> ts.contains(t)
                },
                Err(e) => match collect_topics(documents_model(documents@), Set::empty()) {
                    Err(msg) => e@ == msg,
                    Ok(ts) => ts.len() == 0 && e@
                        == "embedded help corpus contains no Markdown topics"@,
                },
            },
    {
        let ghost docs = documents_model(documents@);
        let mut content = HelpContent::new();
        let mut i: usize = 0;
        let ghost mut done: Seq<TopicModel> = seq![];
        assert(docs.skip(0) == docs);
        assert(ids_of(done) =~= Set::<Seq<char>>::empty());
        while i < documents.len()
            invariant
                i <= documents.len(),
                docs == documents_model(documents@),
                !collect_topics_aborts(docs.skip(i as int), ids_of(done)),
                collect_topics(docs, Set::empty()) == match collect_topics(
                    docs.skip(i as int),
                    ids_of(done),
                ) {
                    Err(e) => Err(e),
                    Ok(rest) => Ok(done + rest),
                },
                content.model().len() == done.len(),
                sorted_by_id(content.model()),
                forall|t: TopicModel| content.model().contains(t) <==> done.contains(t),
            decreases documents.len() - i,
        {
            let ghost rest = docs.skip(i as int);
            assert(rest.drop_first() == docs.skip(i + 1));
            assert(rest[0] == (documents@[i as int].0@, documents@[i as int].1@));
            let (path, text) = (&documents[i].0, &documents[i].1);
            let path_chars = chars_of(path.as_str());
            if is_markdown_path_exec(path_chars.as_slice()) {
                let topic = match parse_topic(text.as_str(), path.clone()) {
                    Ok(t) => t,
                    Err(e) => return Err(e),
                };
                let ghost model = topic.deep_view();
                let ghost before = content.model();
                if !content.insert(topic) {
                    proof {
                        let c = choose|j: int| 0 <= j < before.len() && before[j].help_id == model.help_id;
                        assert(before.contains(before[c]));
                        assert(done.contains(before[c]));
                        assert(ids_of(done).contains(model.help_id));
                    }
                    let e = concat_str(String::from_str("duplicate help id in "), path.as_str());
                    return Err(e);
                }
                proof {
                    assert(!ids_of(done).contains(model.help_id)) by {
                        if ids_of(done).contains(model.help_id) {
                            let d = choose|j: int| 0 <= j < done.len() && done[j].help_id == model.help_id;
                            assert(done.contains(done[d]));
                            assert(before.contains(done[d]));
                            let c = choose|j: int| 0 <= j < before.len() && before[j] == done[d];
                            assert(before[c].help_id == model.help_id);
                        }
                    }
                    let next = done.push(model);
                    assert(ids_of(next) =~= ids_of(done).insert(model.help_id)) by {
                        assert forall|id: Seq<char>| ids_of(next).contains(id) implies ids_of(done).insert(model.help_id).contains(id) by {
                            let j = choose|j: int| 0 <= j < next.len() && next[j].help_id == id;
                            if j < done.len() {
                                assert(done[j] == next[j]);
                            }
                        }
                        assert forall|id: Seq<char>| ids_of(done).insert(model.help_id).contains(id) implies ids_of(next).contains(id) by {
                            if id == model.help_id {
                                assert(next[done.len() as int] == model);
                            } else {
                                let j = choose|j: int| 0 <= j < done.len() && done[j].help_id == id;
                                assert(next[j] == done[j]);
                            }
                        }
                    }
                    assert forall|t: TopicModel| content.model().contains(t) <==> next.contains(t) by {
                        if t == model {
                            assert(next[done.len() as int] == model);
                        }
                        if done.contains(t) {
                            let j = choose|j: int| 0 <= j < done.len() && done[j] == t;
                            assert(next[j] == t);
                        }
                        if next.contains(t) {
                            let j = choose|j: int| 0 <= j < next.len() && next[j] == t;
                            if j < done.len() {
                                assert(done[j] == t);
                            }
                        }
                    }
                    match collect_topics(rest.drop_first(), ids_of(done).insert(model.help_id)) {
                        Err(e) => {},
                        Ok(tail) => {
                            assert(done + (seq![model] + tail) == next + tail);
                        },
                    }
                    done = next;
                }
            }
            i += 1;
        }
        assert(docs.skip(i as int) =~= Seq::<(Seq<char>, Seq<char>)>::empty());
        assert(done + Seq::<TopicModel>::empty() == done);
        if content.topics.len() == 0 {
            return Err(String::from_str("embedded help corpus contains no Markdown topics"));
        }
        Ok(content)
    }
}

/// In a handbook sorted by id, every topic is the one found under its own
/// id: a read by id gives back the topic that was loaded.
pub proof fn law_topic_found_by_its_id(topics: Seq<TopicModel>, t: TopicModel)
    requires
        sorted_by_id(topics),
        topics.contains(t),
    ensures
        topic_with_id(topics, t.help_id) == Some(t),
{
    let i = choose|i: int| 0 <= i < topics.len() && topics[i] == t;
    assert(topics[i].help_id == t.help_id);
    let c = choose|j: int| 0 <= j < topics.len() && topics[j].help_id == t.help_id;
    if c != i {
        if c < i {
            lemma_seq_less_total(topics[c].help_id, topics[i].help_id);
        } else {
            lemma_seq_less_total(topics[i].help_id, topics[c].help_id);
        }
    }
}

/// The answer where no help topic has the asked id.
pub fn help_not_found(help_id: &str) -> (res: crate::api::ApiError)
    ensures
        crate::api::is_error(
            res,
            crate::api::NOT_FOUND,
            "not_found"@,
            "No help topic named '"@ + help_id@ + "'."@,
        ),
{
    let text = concat_str(concat_str(String::new(), "No help topic named '"), help_id);
    let text = concat_str(text, "'.");
    crate::api::error_response(crate::api::NOT_FOUND, "not_found", text.as_str())
}

/// The answer where embedded help content does not load.
pub fn content_error(message: &str) -> (res: crate::api::ApiError)
    ensures
        crate::api::is_error(res, crate::api::INTERNAL_SERVER_ERROR, "content_invalid"@, message@),
{
    crate::api::error_response(crate::api::INTERNAL_SERVER_ERROR, "content_invalid", message)
}

/// The help topic with the asked id, or the answer that there is none.
pub fn topic_or_not_found<'a>(content: &'a HelpContent, help_id: &str) -> (res: Result<
    &'a HelpTopic,
    crate::api::ApiError,
>)
    ensures
        match res {
            Ok(t) => topic_with_id(content.model(), help_id@) == Some(t.deep_view()),
            Err(e) => topic_with_id(content.model(), help_id@) is None && crate::api::is_error(
                e,
                crate::api::NOT_FOUND,
                "not_found"@,
                "No help topic named '"@ + help_id@ + "'."@,
            ),
        },
{
    match content.topic(help_id) {
        Some(t) => Ok(t),
        None => Err(help_not_found(help_id)),
    }
}

/// The port that the first usable `server-port=` line sets: a line that
/// starts so and whose trimmed value parses as an `i32`; lines whose value
/// does not parse are passed over.
pub open spec fn first_server_port(ls: Seq<Seq<char>>) -> Option<int>
    decreases ls.len(),
{
    if ls.len() == 0 {
        None
    } else if crate::text::starts_with(ls[0], "server-port="@) && crate::text::parse_signed(
        crate::text::trim(ls[0].skip("server-port="@.len() as int)),
        i32::MIN as int,
        i32::MAX as int,
    ) is Some {
        crate::text::parse_signed(
            crate::text::trim(ls[0].skip("server-port="@.len() as int)),
            i32::MIN as int,
            i32::MAX as int,
        )
    } else {
        first_server_port(ls.drop_first())
    }
}

fn parse_i32(s: &[char]) -> (res: Option<i32>)
    ensures
        match res {
            Some(v) => crate::text::parse_signed(s@, i32::MIN as int, i32::MAX as int) == Some(v as int),
            None => crate::text::parse_signed(s@, i32::MIN as int, i32::MAX as int) is None,
        },
{
    match crate::text::parse_i64(s) {
        Some(v) => if i32::MIN as i64 <= v && v <= i32::MAX as i64 {
            Some(v as i32)
        } else {
            None
        },
        None => None,
    }
}

/// The game port that a `server.properties` file sets (see
/// `first_server_port`), or `default` where there is no file or no usable
/// line.
pub fn read_server_port(contents: Option<&str>, default: i32) -> (res: i32)
    ensures
        match contents {
            Some(c) => match first_server_port(crate::text::lines(c@)) {
                Some(p) => res == p,
                None => res == default,
            },
            None => res == default,
        },
{
    let c = match contents {
        Some(c) => c,
        None => return default,
    };
    let ls = crate::text::lines_exec(chars_of(c).as_slice());
    let prefix = chars_of("server-port=");
    let ghost all = crate::text::lines(c@);
    let mut i: usize = 0;
    assert(all.skip(0) =~= all);
    while i < ls.len()
        invariant
            contents == Some(c),
            all == crate::text::lines(c@),
            ls.deep_view() == all,
            prefix@ == "server-port="@,
            i <= ls.len(),
            first_server_port(all) == first_server_port(all.skip(i as int)),
        decreases ls.len() - i,
    {
        assert(ls.deep_view()[i as int] == ls@[i as int]@);
        assert(all.skip(i as int)[0] == all[i as int]);
        assert(all.skip(i as int).drop_first() =~= all.skip(i + 1));
        if crate::text::starts_with_exec(ls[i].as_slice(), prefix.as_slice()) {
            let n = ls[i].len();
            let value = crate::text::slice_vec(ls[i].as_slice(), prefix.len(), n);
            assert(value@ =~= all[i as int].skip(prefix@.len() as int));
            let t = crate::text::trim_vec(value.as_slice());
            match parse_i32(t.as_slice()) {
                Some(p) => {
                    return p;
                },
                None => {},
            }
        }
        i += 1;
    }
    assert(all.skip(ls.len() as int).len() == 0);
    default
}

/// The ports and Bedrock support that the network guides assume for a
/// server.
#[derive(Debug, Clone, Copy, PartialEq, Eq)]
pub struct RuntimePorts {
    pub java_port: Option<i32>,
    pub bedrock_port: Option<i32>,
    pub bedrock_enabled: bool,
}

/// The ports the network guides assume for a server: a Java server's game
/// port from its `server.properties` (25565 by default); the configured
/// Bedrock port, or 19132 for a Bedrock server; Bedrock is on for a Bedrock
/// server, where it is enabled, or where a Bedrock port is known.
pub fn runtime_ports(
    is_java: bool,
    is_bedrock: bool,
    configured_bedrock_port: Option<i64>,
    bedrock_enabled: bool,
    properties: Option<&str>,
) -> (res: RuntimePorts)
    ensures
        res.java_port == if is_java {
            Some(
                match properties {
                    Some(c) => match first_server_port(crate::text::lines(c@)) {
                        Some(p) => p as i32,
                        None => 25565i32,
                    },
                    None => 25565i32,
                },
            )
        } else {
            None::<i32>
        },
        res.bedrock_port == match configured_bedrock_port {
            Some(p) => Some(p as i32),
            None => if is_bedrock {
                Some(19132i32)
            } else {
                None::<i32>
            },
        },
        res.bedrock_enabled == (is_bedrock || bedrock_enabled || res.bedrock_port is Some),
{
    let java_port = if is_java {
        Some(read_server_port(properties, 25565))
    } else {
        None
    };
    let bedrock_port = match configured_bedrock_port {
        Some(p) => Some(p as i32),
        None => if is_bedrock {
            Some(19132)
        } else {
            None
        },
    };
    let enabled = is_bedrock || bedrock_enabled || bedrock_port.is_some();
    RuntimePorts { java_port, bedrock_port, bedrock_enabled: enabled }
}

} // verus!
