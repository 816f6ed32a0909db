//! What the tool prints: the listing as a table, and a state change as one line.

use vstd::prelude::*;
use crate::control::{StateChange, StateChangeView};
use crate::instance::{Instance, InstanceView};
use crate::measure::{is_measurable, is_plain, is_simple, text_is_measurable};
use crate::provider::seq_view;

verus! {

/// Whether every cell of every row can be measured.
pub open spec fn all_measurable(rows: Seq<Seq<Seq<char>>>) -> bool {
    forall|r: int, c: int|
        0 <= r < rows.len() && 0 <= c < rows[r].len() ==> is_measurable(#[trigger] rows[r][c])
}

/// The titles of the six columns.
pub open spec fn header() -> Seq<Seq<char>> {
    seq!["Name"@, "ID"@, "Type"@, "Private Address"@, "Public Address"@, "State"@]
}

/// What stands in a cell for a text that may be absent: the text, or nothing at all.
pub open spec fn or_empty(text: Option<Seq<char>>) -> Seq<char> {
    match text {
        Some(text) => text,
        None => Seq::empty(),
    }
}

/// The row of one instance: name, id, type, private address, public address, state.
pub open spec fn row_of(instance: InstanceView) -> Seq<Seq<char>> {
    seq![
        or_empty(instance.name),
        instance.id,
        instance.instance_type,
        instance.private_address,
        or_empty(instance.public_address),
        instance.state,
    ]
}

/// The rows of a listing: the header, then one row for each instance, in order.
pub open spec fn rows_of(instances: Seq<InstanceView>) -> Seq<Seq<Seq<char>>> {
    seq![header()] + instances.map_values(|instance: InstanceView| row_of(instance))
}

/// Whether every cell that an instance fills can be measured.
pub open spec fn fills_measurable(instance: InstanceView) -> bool {
    forall|c: int|
        0 <= c < row_of(instance).len() ==> is_measurable(#[trigger] row_of(instance)[c])
}

/// Whether a listing can be laid out: every cell that its instances fill can
/// be measured.
pub open spec fn is_printable(instances: Seq<InstanceView>) -> bool {
    forall|k: int| 0 <= k < instances.len() ==> fills_measurable(#[trigger] instances[k])
}

/// Whether every cell of every row is simple.
pub open spec fn all_simple(rows: Seq<Seq<Seq<char>>>) -> bool {
    forall|r: int, c: int|
        0 <= r < rows.len() && 0 <= c < rows[r].len() ==> is_simple(#[trigger] rows[r][c])
}

/// Whether a listing is simple: every cell that its instances fill opens no
/// control sequence, or is made of narrow characters alone. The usual
/// control sequences, such as those for colours, are made of narrow
/// characters.
pub open spec fn is_simple_listing(instances: Seq<InstanceView>) -> bool {
    forall|k: int, c: int|
        0 <= k < instances.len() && 0 <= c < row_of(instances[k]).len() ==> is_simple(
            #[trigger] row_of(instances[k])[c],
        )
}

/// The line that tells the region, with its line break.
pub open spec fn region_line(region: Seq<char>) -> Seq<char> {
    "Region: "@ + region + "\n"@
}

/// The text of a listing: the line that tells the region, then the table.
pub open spec fn listing_text(region: Seq<char>, instances: Seq<InstanceView>) -> Seq<char> {
    region_line(region) + table_text(rows_of(instances))
}

/// The line that tells a state change: where the instance was, an arrow, where it is.
pub open spec fn transition_line(change: StateChangeView) -> Seq<char> {
    change.previous_state + " -> "@ + change.current_state
}

/// The text that the table crate lays the rows out as: a grid of borders with
/// every column as wide as its widest cell.
pub uninterp spec fn table_text(rows: Seq<Seq<Seq<char>>>) -> Seq<char>;

/// Lays rows of cells out as a text table.
///
/// `prettytable::Table::from` makes a table of the rows, one cell for each
/// text, with no titles and in the crate's default format; `to_string`
/// renders it through the table's `Display` impl. The text depends on the
/// cells alone, so the contract gives it a name and claims no more.
///
/// The crate measures every line of every cell, when the cell is made and
/// again when it is written, and panics on a line of which it has counted
/// out more than the line is wide. It counts as `counted_out` does, with the
/// widths that `unicode-width` gives, and it counts nothing out of a text
/// that opens no control sequence. So every cell has to be measurable.
#[verifier::external_body]
fn lay_out(rows: &Vec<Vec<String>>) -> (text: String)
    requires
        all_measurable(rows.deep_view()),
    ensures
        text@ == table_text(rows.deep_view()),
{
    prettytable::Table::from(rows).to_string()
}

/// Tells whether every cell of every row can be measured. Rows of simple
/// cells always can.
pub fn rows_are_measurable(rows: &Vec<Vec<String>>) -> (measurable: bool)
    ensures
        measurable == all_measurable(rows.deep_view()),
        all_simple(rows.deep_view()) ==> measurable,
{
    let ghost cells = rows.deep_view();
    let mut r: usize = 0;
    while r < rows.len()
        invariant
            r <= rows.len(),
            cells == rows.deep_view(),
            forall|i: int, c: int|
                0 <= i < r && 0 <= c < cells[i].len() ==> is_measurable(#[trigger] cells[i][c]),
        decreases rows.len() - r,
    {
        let row = &rows[r];
        let mut c: usize = 0;
        while c < row.len()
            invariant
                c <= row.len(),
                r < rows.len(),
                cells == rows.deep_view(),
                cells[r as int] == row.deep_view(),
                forall|i: int, c: int|
                    0 <= i < r && 0 <= c < cells[i].len() ==> is_measurable(
                        #[trigger] cells[i][c],
                    ),
                forall|j: int| 0 <= j < c ==> is_measurable(#[trigger] cells[r as int][j]),
            decreases row.len() - c,
        {
            if !text_is_measurable(row[c].as_str()) {
                assert(!is_measurable(cells[r as int][c as int]));
                assert(!is_simple(cells[r as int][c as int]));
                return false;
            }
            c += 1;
        }
        r += 1;
    }
    true
}

/// The titles of the six columns, as a row.
pub fn header_row() -> (row: Vec<String>)
    ensures
        row.deep_view() == header(),
{
    let mut row: Vec<String> = Vec::new();
    row.push("Name".to_owned());
    row.push("ID".to_owned());
    row.push("Type".to_owned());
    row.push("Private Address".to_owned());
    row.push("Public Address".to_owned());
    row.push("State".to_owned());
    row
}

/// The row of one instance. An absent name or public address leaves its cell empty.
pub fn instance_row(instance: &Instance) -> (row: Vec<String>)
    ensures
        row.deep_view() == row_of(instance@),
{
    let mut row: Vec<String> = Vec::new();
    row.push(
        match instance.name() {
            Some(name) => name.to_owned(),
            None => String::new(),
        },
    );
    row.push(instance.id().to_owned());
    row.push(instance.instance_type().to_owned());
    row.push(instance.private_address().to_owned());
    row.push(
        match instance.public_address() {
            Some(address) => address.to_owned(),
            None => String::new(),
        },
    );
    row.push(instance.state().to_owned());
    row
}

/// The rows of a listing: the header, then one row for each instance, in order.
pub fn table_rows(instances: &[Instance]) -> (rows: Vec<Vec<String>>)
    ensures
        rows.deep_view() == rows_of(seq_view(instances@)),
{
    let ghost views = seq_view(instances@);
    let mut rows: Vec<Vec<String>> = Vec::new();
    rows.push(header_row());
    let mut i: usize = 0;
    while i < instances.len()
        invariant
            i <= instances.len(),
            views == seq_view(instances@),
            rows.deep_view() == rows_of(views.take(i as int)),
        decreases instances.len() - i,
    {
        rows.push(instance_row(&instances[i]));
        assert(rows_of(views.take(i + 1)) =~= rows_of(views.take(i as int)).push(
            row_of(views[i as int]),
        ));
        i += 1;
    }
    rows
}

/// Puts the line that tells the region above a table that is already laid out.
pub fn under_region(region: &str, table: &str) -> (text: String)
    ensures
        text@ == region_line(region@) + table@,
{
    let mut text = "Region: ".to_owned();
    text.append(region);
    text.append("\n");
    text.append(table);
    text
}

/// The titles open no control sequence, so the rows of a listing can be
/// measured exactly when the listing is printable.
pub proof fn lemma_rows_measurable(instances: Seq<InstanceView>)
    ensures
        all_measurable(rows_of(instances)) <==> is_printable(instances),
{
    reveal_strlit("Name");
    reveal_strlit("ID");
    reveal_strlit("Type");
    reveal_strlit("Private Address");
    reveal_strlit("Public Address");
    reveal_strlit("State");
    let rows = rows_of(instances);
    assert(forall|c: int| 0 <= c < header().len() ==> is_plain(#[trigger] header()[c]));
    if is_printable(instances) {
        assert forall|r: int, c: int|
            0 <= r < rows.len() && 0 <= c < rows[r].len() implies is_measurable(
            #[trigger] rows[r][c],
        ) by {
            if r > 0 {
                assert(fills_measurable(instances[r - 1]));
            } else {
                assert(is_plain(header()[c]));
            }
        }
    }
    if all_measurable(rows) {
        assert forall|k: int| 0 <= k < instances.len() implies fills_measurable(
            #[trigger] instances[k],
        ) by {
            assert forall|c: int| 0 <= c < row_of(instances[k]).len() implies is_measurable(
                #[trigger] row_of(instances[k])[c],
            ) by {
                assert(is_measurable(rows[k + 1][c]));
            }
        }
    }
}

/// The titles open no control sequence, so the rows of a simple listing are
/// all simple.
pub proof fn lemma_rows_simple(instances: Seq<InstanceView>)
    requires
        is_simple_listing(instances),
    ensures
        all_simple(rows_of(instances)),
{
    reveal_strlit("Name");
    reveal_strlit("ID");
    reveal_strlit("Type");
    reveal_strlit("Private Address");
    reveal_strlit("Public Address");
    reveal_strlit("State");
    let rows = rows_of(instances);
    assert(forall|c: int| 0 <= c < header().len() ==> is_plain(#[trigger] header()[c]));
    assert forall|r: int, c: int|
        0 <= r < rows.len() && 0 <= c < rows[r].len() implies is_simple(
        #[trigger] rows[r][c],
    ) by {
        if r > 0 {
            assert(is_simple(row_of(instances[r - 1])[c]));
        } else {
            assert(is_plain(header()[c]));
        }
    }
}

/// A listing in which no cell opens a control sequence is printable,
/// whatever else its cells hold and whichever of them are empty.
pub proof fn lemma_plain_is_printable(instances: Seq<InstanceView>)
    requires
        forall|k: int, c: int|
            0 <= k < instances.len() && 0 <= c < row_of(instances[k]).len() ==> is_plain(
                #[trigger] row_of(instances[k])[c],
            ),
    ensures
        is_printable(instances),
{
    assert forall|k: int| 0 <= k < instances.len() implies fills_measurable(
        #[trigger] instances[k],
    ) by {
        assert forall|c: int| 0 <= c < row_of(instances[k]).len() implies is_measurable(
            #[trigger] row_of(instances[k])[c],
        ) by {
            assert(is_plain(row_of(instances[k])[c]));
        }
    }
}

/// An instance without a public address has an empty cell in that column, and
/// the empty cell does not keep the listing from being printed.
pub proof fn lemma_absent_public_address(instance: InstanceView)
    requires
        instance.public_address is None,
    ensures
        row_of(instance)[4] == Seq::<char>::empty(),
        is_measurable(row_of(instance)[4]),
{
}

/// The text of the listing: the line that tells the region, then the table of
/// the instances under its header.
///
/// There is a text exactly when the listing is printable, which is exactly
/// when the table crate lays it out. Absent names and addresses never stand
/// in the way, and a simple listing is always printed: one whose cells open
/// no control sequence, or are made of narrow characters alone. What is left
/// out are cells with a line of which a control sequence takes up more than
/// the line is wide: on those the table crate gives up.
pub fn print_instances(region: &str, instances: &[Instance]) -> (text: Option<String>)
    ensures
        match text {
            Some(text) => is_printable(seq_view(instances@)) && text@ == listing_text(
                region@,
                seq_view(instances@),
            ),
            None => !is_printable(seq_view(instances@)),
        },
        is_simple_listing(seq_view(instances@)) ==> text is Some,
{
    let rows = table_rows(instances);
    proof {
        lemma_rows_measurable(seq_view(instances@));
        if is_simple_listing(seq_view(instances@)) {
            lemma_rows_simple(seq_view(instances@));
        }
    }
    if !rows_are_measurable(&rows) {
        return None;
    }
    let table = lay_out(&rows);
    Some(under_region(region, table.as_str()))
}

/// The line that tells a state change: `"<previous> -> <current>"`.
pub fn print_instance_state_change(change: &StateChange) -> (line: String)
    ensures
        line@ == transition_line(change@),
{
    let mut line = change.previous_state.clone();
    line.append(" -> ");
    line.append(change.current_state.as_str());
    line
}

} // verus!
