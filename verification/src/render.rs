//! The three widgets and where they stand on the screen.
//!
//! Rows 0 to 2 belong to the memory widget and rows 3, 4 and 6 to the CPU
//! widget. From row 8 on each logical CPU takes four rows: name, brand,
//! frequency and one that is left alone. Nothing is paged: with many CPUs the
//! list runs off the screen.
//!
//! Every widget is drawn on every tick, from the sample alone. The two bars
//! first blank their rows and then write into them, so that no fill and no
//! text of an earlier frame is left there. The list writes its three lines
//! for each CPU and nothing else; for no CPUs it writes nothing.

use crate::frame::{
    blank, covers, lemma_paint_cells, lemma_paint_concat, lemma_paint_covered,
    lemma_paint_twice, lemma_paint_uncovered, lemma_shown_last, paint, strokes_of, Color, DrawOp,
    Glyph, Screen, Stroke, Style,
};
use crate::memory::{fill_of, memory_fill_len, nearest_mb, Megabytes};
use crate::snapshot::{records_of, CPUInfo, Config, CpuRecord, Snapshot};
use crate::text::{decimal, decimal_string};
use crate::usage::{cpu_fill_of, usage_text, CpuUsage};
use vstd::prelude::*;
use vstd::string::*;

verus! {

/// The character that fills a bar.
pub const FILL_GLYPH: char = '*';

/// The column of a bar's opening bracket.
pub const BAR_OPEN_COL: u128 = 0;

/// The column of a bar's first interior cell.
pub const BAR_FILL_COL: u128 = 1;

/// The column of a bar's closing bracket.
pub const BAR_CLOSE_COL: u128 = 19;

/// The column where the text beside a bar begins.
pub const BAR_TEXT_COL: u128 = 21;

/// The row of the memory bar's label.
pub const MEMORY_LABEL_ROW: u128 = 0;

/// The row of the memory bar and of the used and total amounts.
pub const MEMORY_BAR_ROW: u128 = 1;

/// The row of the available amount, the last of the memory widget.
pub const MEMORY_AVAILABLE_ROW: u128 = 2;

/// The row of the CPU bar's label.
pub const CPU_LABEL_ROW: u128 = 3;

/// The row of the CPU bar and of the percentage.
pub const CPU_BAR_ROW: u128 = 4;

/// The row of the core count.
pub const CORES_ROW: u128 = 6;

/// The row where the list of CPUs begins.
pub const CPU_LIST_ROW: u128 = 8;

/// The rows that one CPU takes in the list, the blank one included.
pub const CPU_ENTRY_ROWS: u128 = 4;

/// No colour, not bold.
pub open spec fn plain() -> Style {
    Style { color: Color::Default, bold: false }
}

/// No colour, bold: the brackets of the CPU bar.
pub open spec fn bold() -> Style {
    Style { color: Color::Default, bold: true }
}

/// The fill of the memory bar.
pub open spec fn bar_fill() -> Style {
    Style { color: Color::Bar, bold: false }
}

/// The brackets of the memory bar.
pub open spec fn bar_bracket() -> Style {
    Style { color: Color::Bar, bold: true }
}

/// The text beside the memory bar.
pub open spec fn annotation() -> Style {
    Style { color: Color::Annotation, bold: false }
}

/// The used and total amounts as the memory bar shows them.
pub open spec fn used_of_total_text(used: nat, total: nat) -> Seq<char> {
    decimal(nearest_mb(used)) + " MBs of "@ + decimal(nearest_mb(total)) + " MBs"@
}

/// The available amount as the memory bar shows it.
pub open spec fn available_text(available: nat) -> Seq<char> {
    decimal(nearest_mb(available)) + " MBs available"@
}

/// The memory widget for amounts given in bytes: blanks over its rows, the
/// label, the fill, the two brackets over it, then the two lines of text.
pub open spec fn memory_widget(available: nat, total: nat, used: nat) -> Seq<Stroke> {
    seq![
        Stroke::Blank { first: MEMORY_LABEL_ROW as int, last: MEMORY_AVAILABLE_ROW as int },
        Stroke::Text {
            row: MEMORY_LABEL_ROW as int,
            col: 0,
            text: "Used Memory"@,
            style: plain(),
        },
        Stroke::Fill {
            row: MEMORY_BAR_ROW as int,
            col: BAR_FILL_COL as int,
            len: fill_of(used, total),
            glyph: FILL_GLYPH,
            style: bar_fill(),
        },
        Stroke::Fill {
            row: MEMORY_BAR_ROW as int,
            col: BAR_OPEN_COL as int,
            len: 1,
            glyph: '[',
            style: bar_bracket(),
        },
        Stroke::Fill {
            row: MEMORY_BAR_ROW as int,
            col: BAR_CLOSE_COL as int,
            len: 1,
            glyph: ']',
            style: bar_bracket(),
        },
        Stroke::Text {
            row: MEMORY_BAR_ROW as int,
            col: BAR_TEXT_COL as int,
            text: used_of_total_text(used, total),
            style: annotation(),
        },
        Stroke::Text {
            row: MEMORY_AVAILABLE_ROW as int,
            col: BAR_TEXT_COL as int,
            text: available_text(available),
            style: annotation(),
        },
    ]
}

/// The CPU widget for a usage given by its bit pattern: blanks over its
/// rows, which are those of the label and the bar and that of the core
/// count, then the label, the fill, the two brackets over it, the percentage
/// and the core count.
pub open spec fn cpu_widget(usage_bits: u32, cores: nat) -> Seq<Stroke> {
    seq![
        Stroke::Blank { first: CPU_LABEL_ROW as int, last: CPU_BAR_ROW as int },
        Stroke::Blank { first: CORES_ROW as int, last: CORES_ROW as int },
        Stroke::Text { row: CPU_LABEL_ROW as int, col: 0, text: "CPU Usage "@, style: plain() },
        Stroke::Fill {
            row: CPU_BAR_ROW as int,
            col: BAR_FILL_COL as int,
            len: cpu_fill_of(usage_bits),
            glyph: FILL_GLYPH,
            style: plain(),
        },
        Stroke::Fill {
            row: CPU_BAR_ROW as int,
            col: BAR_OPEN_COL as int,
            len: 1,
            glyph: '[',
            style: bold(),
        },
        Stroke::Fill {
            row: CPU_BAR_ROW as int,
            col: BAR_CLOSE_COL as int,
            len: 1,
            glyph: ']',
            style: bold(),
        },
        Stroke::Text {
            row: CPU_BAR_ROW as int,
            col: BAR_TEXT_COL as int,
            text: usage_text(usage_bits) + "%"@,
            style: plain(),
        },
        Stroke::Text {
            row: CORES_ROW as int,
            col: 0,
            text: "("@ + decimal(cores) + ") Cores"@,
            style: plain(),
        },
    ]
}

/// The three lines of the CPU that stands at `index` in the list.
pub open spec fn cpu_entry(cpu: CpuRecord, index: nat) -> Seq<Stroke> {
    let top = CPU_LIST_ROW + CPU_ENTRY_ROWS * index;
    seq![
        Stroke::Text { row: top, col: 0, text: "Name: "@ + cpu.name, style: plain() },
        Stroke::Text { row: top + 1, col: 0, text: "Brand: "@ + cpu.brand, style: plain() },
        Stroke::Text {
            row: top + 2,
            col: 0,
            text: "Frequency: "@ + decimal(cpu.frequency) + " MHz"@,
            style: plain(),
        },
    ]
}

/// The list of CPUs: the entries of all of them, in their order, and
/// nothing else. The list of no CPUs is empty.
pub open spec fn cpu_list(cpus: Seq<CpuRecord>) -> Seq<Stroke>
    decreases cpus.len(),
{
    if cpus.len() == 0 {
        Seq::empty()
    } else {
        cpu_list(cpus.drop_last()) + cpu_entry(cpus.last(), (cpus.len() - 1) as nat)
    }
}

/// What stands in column `col` of a bar's row, from the opening bracket to
/// the closing one: the brackets at the two ends, the fill character in as
/// many interior cells as the fill length says, and blanks in the rest.
pub open spec fn bar_cell(fill: nat, col: int, fill_style: Style, bracket_style: Style) -> Glyph
    recommends
        BAR_OPEN_COL <= col <= BAR_CLOSE_COL,
{
    if col == BAR_OPEN_COL {
        Glyph { ch: '[', style: bracket_style }
    } else if col == BAR_CLOSE_COL {
        Glyph { ch: ']', style: bracket_style }
    } else if col <= fill {
        Glyph { ch: FILL_GLYPH, style: fill_style }
    } else {
        blank()
    }
}

/// All that one sample draws: the memory widget, the CPU widget, the list.
pub open spec fn frame_of(snapshot: Snapshot) -> Seq<Stroke> {
    memory_widget(snapshot.available_memory, snapshot.total_memory, snapshot.used_memory)
        + cpu_widget(snapshot.cpu_usage, snapshot.cores) + cpu_list(snapshot.cpus)
}

/// Draws the memory widget.
///
/// No amount is refused: more used than there is overdraws the bar, and of
/// a total of zero nothing is filled.
pub fn draw_progress_bar(
    available_memory: Megabytes,
    total_memory: Megabytes,
    used_memory: Megabytes,
) -> (ops: Vec<DrawOp>)
    ensures
        strokes_of(ops@) == memory_widget(
            available_memory.bytes_spec(),
            total_memory.bytes_spec(),
            used_memory.bytes_spec(),
        ),
{
    let text_style = Style { color: Color::Default, bold: false };
    let fill = Style { color: Color::Bar, bold: false };
    let bracket = Style { color: Color::Bar, bold: true };
    let note = Style { color: Color::Annotation, bold: false };

    let mut amounts: String = decimal_string(used_memory.rounded() as u128);
    amounts.append(" MBs of ");
    amounts.append(decimal_string(total_memory.rounded() as u128).as_str());
    amounts.append(" MBs");
    let mut available: String = decimal_string(available_memory.rounded() as u128);
    available.append(" MBs available");

    let mut ops: Vec<DrawOp> = Vec::new();
    ops.push(DrawOp::Blank { first: MEMORY_LABEL_ROW, last: MEMORY_AVAILABLE_ROW });
    ops.push(
        DrawOp::Text {
            row: MEMORY_LABEL_ROW,
            col: 0,
            text: String::from_str("Used Memory"),
            style: text_style,
        },
    );
    ops.push(
        DrawOp::Fill {
            row: MEMORY_BAR_ROW,
            col: BAR_FILL_COL,
            len: memory_fill_len(used_memory, total_memory),
            glyph: FILL_GLYPH,
            style: fill,
        },
    );
    ops.push(
        DrawOp::Fill {
            row: MEMORY_BAR_ROW,
            col: BAR_OPEN_COL,
            len: 1,
            glyph: '[',
            style: bracket,
        },
    );
    ops.push(
        DrawOp::Fill {
            row: MEMORY_BAR_ROW,
            col: BAR_CLOSE_COL,
            len: 1,
            glyph: ']',
            style: bracket,
        },
    );
    ops.push(DrawOp::Text { row: MEMORY_BAR_ROW, col: BAR_TEXT_COL, text: amounts, style: note });
    ops.push(
        DrawOp::Text { row: MEMORY_AVAILABLE_ROW, col: BAR_TEXT_COL, text: available, style: note },
    );
    assert(strokes_of(ops@) =~= memory_widget(
        available_memory.bytes_spec(),
        total_memory.bytes_spec(),
        used_memory.bytes_spec(),
    ));
    ops
}

/// Draws the CPU widget.
pub fn draw_cpu_usage(cpu_usage: CpuUsage, cores: usize) -> (ops: Vec<DrawOp>)
    ensures
        strokes_of(ops@) == cpu_widget(cpu_usage.bits_spec(), cores as nat),
{
    let text_style = Style { color: Color::Default, bold: false };
    let bracket = Style { color: Color::Default, bold: true };

    let mut percentage: String = cpu_usage.text();
    percentage.append("%");
    let mut core_count: String = String::from_str("(");
    core_count.append(decimal_string(cores as u128).as_str());
    core_count.append(") Cores");

    let mut ops: Vec<DrawOp> = Vec::new();
    ops.push(DrawOp::Blank { first: CPU_LABEL_ROW, last: CPU_BAR_ROW });
    ops.push(DrawOp::Blank { first: CORES_ROW, last: CORES_ROW });
    ops.push(
        DrawOp::Text {
            row: CPU_LABEL_ROW,
            col: 0,
            text: String::from_str("CPU Usage "),
            style: text_style,
        },
    );
    ops.push(
        DrawOp::Fill {
            row: CPU_BAR_ROW,
            col: BAR_FILL_COL,
            len: cpu_usage.fill_len() as u128,
            glyph: FILL_GLYPH,
            style: text_style,
        },
    );
    ops.push(
        DrawOp::Fill { row: CPU_BAR_ROW, col: BAR_OPEN_COL, len: 1, glyph: '[', style: bracket },
    );
    ops.push(
        DrawOp::Fill { row: CPU_BAR_ROW, col: BAR_CLOSE_COL, len: 1, glyph: ']', style: bracket },
    );
    ops.push(DrawOp::Text { row: CPU_BAR_ROW, col: BAR_TEXT_COL, text: percentage, style: text_style });
    ops.push(DrawOp::Text { row: CORES_ROW, col: 0, text: core_count, style: text_style });
    assert(strokes_of(ops@) =~= cpu_widget(cpu_usage.bits_spec(), cores as nat));
    ops
}

/// Draws the list of CPUs: three lines for each, in the order of `cpus`,
/// and nothing else. For no CPUs there is nothing to draw.
pub fn draw_cpu_info(cpus: &Vec<CPUInfo>) -> (ops: Vec<DrawOp>)
    ensures
        strokes_of(ops@) == cpu_list(records_of(cpus@)),
        ops@.len() == 3 * cpus@.len(),
{
    let text_style = Style { color: Color::Default, bold: false };
    let ghost records = records_of(cpus@);
    let mut ops: Vec<DrawOp> = Vec::new();
    let mut i: usize = 0;
    assert(records.take(0) =~= Seq::<CpuRecord>::empty());
    assert(strokes_of(ops@) =~= cpu_list(records.take(0)));
    while i < cpus.len()
        invariant
            i <= cpus.len(),
            records == records_of(cpus@),
            ops@.len() == 3 * i,
            strokes_of(ops@) == cpu_list(records.take(i as int)),
            text_style == plain(),
        decreases cpus.len() - i,
    {
        let cpu = &cpus[i];
        let top: u128 = CPU_LIST_ROW + CPU_ENTRY_ROWS * (i as u128);
        let mut name: String = String::from_str("Name: ");
        name.append(cpu.name.as_str());
        let mut brand: String = String::from_str("Brand: ");
        brand.append(cpu.brand.as_str());
        let mut frequency: String = String::from_str("Frequency: ");
        frequency.append(decimal_string(cpu.frequency as u128).as_str());
        frequency.append(" MHz");
        let ghost before = strokes_of(ops@);
        ops.push(DrawOp::Text { row: top, col: 0, text: name, style: text_style });
        ops.push(DrawOp::Text { row: top + 1, col: 0, text: brand, style: text_style });
        ops.push(DrawOp::Text { row: top + 2, col: 0, text: frequency, style: text_style });
        proof {
            let next = records.take(i + 1);
            assert(next.drop_last() =~= records.take(i as int));
            assert(next.last() == cpus@[i as int]@);
            assert(strokes_of(ops@) =~= before + cpu_entry(records[i as int], i as nat));
        }
        i = i + 1;
    }
    assert(records.take(i as int) =~= records);
    ops
}

/// Draws all of a sample: the memory widget, the CPU widget, then the list
/// of CPUs.
pub fn draw(config: &Config) -> (ops: Vec<DrawOp>)
    ensures
        strokes_of(ops@) == frame_of(config@),
{
    let mut ops = draw_progress_bar(
        config.available_memory(),
        config.total_memory(),
        config.used_memory(),
    );
    let mut cpu = draw_cpu_usage(config.cpu_usage(), config.cores());
    let mut list = draw_cpu_info(config.cpus());
    let ghost memory_ops = ops@;
    let ghost cpu_ops = cpu@;
    let ghost list_ops = list@;
    ops.append(&mut cpu);
    ops.append(&mut list);
    assert(strokes_of(ops@) =~= strokes_of(memory_ops) + strokes_of(cpu_ops) + strokes_of(
        list_ops,
    ));
    ops
}

/// The list of no CPUs draws nothing, and each further CPU adds three
/// strokes.
pub proof fn lemma_cpu_list_len(cpus: Seq<CpuRecord>)
    ensures
        cpu_list(cpus).len() == 3 * cpus.len(),
        cpus.len() == 0 ==> cpu_list(cpus) == Seq::<Stroke>::empty(),
    decreases cpus.len(),
{
    if cpus.len() > 0 {
        lemma_cpu_list_len(cpus.drop_last());
    }
}

/// The CPU at `index` is drawn by the strokes `3 * index` to
/// `3 * index + 2` of the list, which are its entry: the list keeps the
/// order of the CPUs, and entry `index` begins at row `8 + 4 * index`.
pub proof fn lemma_cpu_list_entry(cpus: Seq<CpuRecord>, index: int)
    requires
        0 <= index < cpus.len(),
    ensures
        cpu_list(cpus).len() == 3 * cpus.len(),
        cpu_list(cpus).subrange(3 * index, 3 * index + 3) == cpu_entry(cpus[index], index as nat),
    decreases cpus.len(),
{
    lemma_cpu_list_len(cpus);
    lemma_cpu_list_len(cpus.drop_last());
    let entry = cpu_entry(cpus.last(), (cpus.len() - 1) as nat);
    if index == cpus.len() - 1 {
        assert(cpu_list(cpus).subrange(3 * index, 3 * index + 3) =~= entry);
    } else {
        lemma_cpu_list_entry(cpus.drop_last(), index);
        assert(cpu_list(cpus).subrange(3 * index, 3 * index + 3) =~= cpu_list(
            cpus.drop_last(),
        ).subrange(3 * index, 3 * index + 3));
    }
}

/// Drawing the same sample a second time leaves the screen as the first
/// time left it: what is drawn depends on the sample alone, and drawing
/// keeps nothing from one frame to the next.
pub proof fn lemma_redraw(screen: Screen, snapshot: Snapshot)
    ensures
        paint(paint(screen, frame_of(snapshot)), frame_of(snapshot)) == paint(
            screen,
            frame_of(snapshot),
        ),
{
    lemma_paint_twice(screen, frame_of(snapshot));
}

/// Drawing the three widgets one after the other, as the loop does, is
/// drawing the frame of the sample.
pub proof fn lemma_frame_by_widgets(screen: Screen, snapshot: Snapshot)
    ensures
        paint(screen, frame_of(snapshot)) == paint(
            paint(
                paint(
                    screen,
                    memory_widget(
                        snapshot.available_memory,
                        snapshot.total_memory,
                        snapshot.used_memory,
                    ),
                ),
                cpu_widget(snapshot.cpu_usage, snapshot.cores),
            ),
            cpu_list(snapshot.cpus),
        ),
{
    let memory = memory_widget(
        snapshot.available_memory,
        snapshot.total_memory,
        snapshot.used_memory,
    );
    let cpu = cpu_widget(snapshot.cpu_usage, snapshot.cores);
    lemma_paint_concat(screen, memory, cpu);
    lemma_paint_concat(screen, memory + cpu, cpu_list(snapshot.cpus));
}

/// Whether `row` is one of the rows of the CPU widget: that of the label,
/// that of the bar, or that of the core count.
pub open spec fn is_cpu_row(row: int) -> bool {
    row == CPU_LABEL_ROW || row == CPU_BAR_ROW || row == CORES_ROW
}

/// Each widget keeps to its rows: the memory widget to rows 0 to 2 and the
/// CPU widget to rows 3, 4 and 6. In the list, stroke `k` writes in row
/// `8 + 4 * (k / 3) + k % 3` and nowhere else, so that the fourth row of
/// each entry is never written.
pub proof fn lemma_widget_rows(snapshot: Snapshot, k: int, row: int, col: int)
    ensures
        0 <= k < 7 && covers(
            memory_widget(
                snapshot.available_memory,
                snapshot.total_memory,
                snapshot.used_memory,
            )[k],
            row,
            col,
        ) ==> 0 <= row <= 2,
        0 <= k < 8 && covers(cpu_widget(snapshot.cpu_usage, snapshot.cores)[k], row, col)
            ==> is_cpu_row(row),
        0 <= k < 3 * snapshot.cpus.len() && covers(cpu_list(snapshot.cpus)[k], row, col) ==> row
            == 8 + 4 * (k / 3) + k % 3,
{
    let list = cpu_list(snapshot.cpus);
    if 0 <= k < 3 * snapshot.cpus.len() {
        let index = k / 3;
        lemma_cpu_list_entry(snapshot.cpus, index);
        let entry = cpu_entry(snapshot.cpus[index], index as nat);
        assert(list.subrange(3 * index, 3 * index + 3)[k % 3] == list[k]);
        assert(entry[k % 3] == list[k]);
    }
}

/// A widget changes nothing outside its rows. The memory widget leaves
/// every cell below row 2 as it was. The CPU widget leaves every cell
/// outside rows 3, 4 and 6 as it was, rows 5 and 7 among them. The list
/// leaves every cell above row 8 as it was, and the fourth row of each
/// entry; the list of no CPUs leaves the whole screen as it was.
pub proof fn lemma_widget_leaves(screen: Screen, snapshot: Snapshot, row: int, col: int)
    requires
        screen.dom().contains((row, col)),
    ensures
        !(0 <= row <= 2) ==> paint(
            screen,
            memory_widget(snapshot.available_memory, snapshot.total_memory, snapshot.used_memory),
        )[(row, col)] == screen[(row, col)],
        !is_cpu_row(row) ==> paint(screen, cpu_widget(snapshot.cpu_usage, snapshot.cores))[(
            row,
            col,
        )] == screen[(row, col)],
        row < 8 || (row - 8) % 4 == 3 || snapshot.cpus.len() == 0 ==> paint(
            screen,
            cpu_list(snapshot.cpus),
        )[(row, col)] == screen[(row, col)],
        snapshot.cpus.len() == 0 ==> paint(screen, cpu_list(snapshot.cpus)) == screen,
{
    let memory = memory_widget(
        snapshot.available_memory,
        snapshot.total_memory,
        snapshot.used_memory,
    );
    let cpu = cpu_widget(snapshot.cpu_usage, snapshot.cores);
    let list = cpu_list(snapshot.cpus);
    lemma_cpu_list_len(snapshot.cpus);
    if !(0 <= row <= 2) {
        assert forall|k: int| 0 <= k < memory.len() implies !covers(
            #[trigger] memory[k],
            row,
            col,
        ) by {
            lemma_widget_rows(snapshot, k, row, col);
        }
        lemma_paint_uncovered(screen, memory, row, col);
    }
    if !is_cpu_row(row) {
        assert forall|k: int| 0 <= k < cpu.len() implies !covers(#[trigger] cpu[k], row, col) by {
            lemma_widget_rows(snapshot, k, row, col);
        }
        lemma_paint_uncovered(screen, cpu, row, col);
    }
    if row < 8 || (row - 8) % 4 == 3 || snapshot.cpus.len() == 0 {
        assert forall|k: int| 0 <= k < list.len() implies !covers(#[trigger] list[k], row, col) by {
            lemma_widget_rows(snapshot, k, row, col);
        }
        lemma_paint_uncovered(screen, list, row, col);
    }
}

/// The two bars redraw all of their rows: painted on two screens, the
/// memory widget leaves the same in every cell of rows 0 to 2, and the CPU
/// widget in every cell of rows 3, 4 and 6, so that no fill and no text of
/// an earlier frame shows through.
pub proof fn lemma_widget_redraw(
    first: Screen,
    second: Screen,
    snapshot: Snapshot,
    row: int,
    col: int,
)
    requires
        first.dom().contains((row, col)),
        second.dom().contains((row, col)),
    ensures
        0 <= row <= 2 ==> paint(
            first,
            memory_widget(snapshot.available_memory, snapshot.total_memory, snapshot.used_memory),
        )[(row, col)] == paint(
            second,
            memory_widget(snapshot.available_memory, snapshot.total_memory, snapshot.used_memory),
        )[(row, col)],
        is_cpu_row(row) ==> paint(first, cpu_widget(snapshot.cpu_usage, snapshot.cores))[(
            row,
            col,
        )] == paint(second, cpu_widget(snapshot.cpu_usage, snapshot.cores))[(row, col)],
{
    if 0 <= row <= 2 {
        lemma_paint_covered(
            first,
            second,
            memory_widget(snapshot.available_memory, snapshot.total_memory, snapshot.used_memory),
            0,
            row,
            col,
        );
    }
    if is_cpu_row(row) {
        let k = if row == CORES_ROW {
            1int
        } else {
            0int
        };
        lemma_paint_covered(
            first,
            second,
            cpu_widget(snapshot.cpu_usage, snapshot.cores),
            k,
            row,
            col,
        );
    }
}

/// A frame redraws the rows of the two bars from the sample: painted on two
/// screens, it leaves the same in every cell of rows 0 to 4 and of row 6.
pub proof fn lemma_frame_redraw(
    first: Screen,
    second: Screen,
    snapshot: Snapshot,
    row: int,
    col: int,
)
    requires
        first.dom().contains((row, col)),
        second.dom().contains((row, col)),
        0 <= row <= 2 || is_cpu_row(row),
    ensures
        paint(first, frame_of(snapshot))[(row, col)] == paint(second, frame_of(snapshot))[(
            row,
            col,
        )],
{
    let frame = frame_of(snapshot);
    let memory = memory_widget(
        snapshot.available_memory,
        snapshot.total_memory,
        snapshot.used_memory,
    );
    let cpu = cpu_widget(snapshot.cpu_usage, snapshot.cores);
    assert(frame[0] == memory[0]);
    assert(frame[7] == cpu[0]);
    assert(frame[8] == cpu[1]);
    let k = if row <= 2 {
        0int
    } else if row == CORES_ROW {
        8int
    } else {
        7int
    };
    lemma_paint_covered(first, second, frame, k, row, col);
}

/// After the memory widget is drawn, on whatever screen, its bar shows the
/// brackets, the fill character in the first cells of the interior, as many
/// as the fill length says, and blanks in the rest of the interior: no
/// fill of an earlier frame is left.
pub proof fn lemma_memory_bar(screen: Screen, available: nat, total: nat, used: nat, col: int)
    requires
        BAR_OPEN_COL <= col <= BAR_CLOSE_COL,
        screen.dom().contains((MEMORY_BAR_ROW as int, col)),
    ensures
        paint(screen, memory_widget(available, total, used))[(MEMORY_BAR_ROW as int, col)]
            == bar_cell(fill_of(used, total), col, bar_fill(), bar_bracket()),
{
    let widget = memory_widget(available, total, used);
    let row = MEMORY_BAR_ROW as int;
    lemma_paint_cells(screen, widget);
    let k = if col == BAR_OPEN_COL {
        3int
    } else if col == BAR_CLOSE_COL {
        4int
    } else if col <= fill_of(used, total) {
        2int
    } else {
        0int
    };
    assert(!covers(widget[1], row, col));
    assert(!covers(widget[5], row, col));
    assert(!covers(widget[6], row, col));
    lemma_shown_last(screen[(row, col)], widget, k, row, col);
}

/// After the CPU widget is drawn, on whatever screen, its bar shows the
/// brackets, the fill character in the first cells of the interior, as many
/// as the fill length says, and blanks in the rest of the interior: no
/// fill of an earlier frame is left.
pub proof fn lemma_cpu_bar(screen: Screen, usage_bits: u32, cores: nat, col: int)
    requires
        BAR_OPEN_COL <= col <= BAR_CLOSE_COL,
        screen.dom().contains((CPU_BAR_ROW as int, col)),
    ensures
        paint(screen, cpu_widget(usage_bits, cores))[(CPU_BAR_ROW as int, col)] == bar_cell(
            cpu_fill_of(usage_bits),
            col,
            plain(),
            bold(),
        ),
{
    let widget = cpu_widget(usage_bits, cores);
    let row = CPU_BAR_ROW as int;
    lemma_paint_cells(screen, widget);
    let k = if col == BAR_OPEN_COL {
        4int
    } else if col == BAR_CLOSE_COL {
        5int
    } else if col <= cpu_fill_of(usage_bits) {
        3int
    } else {
        0int
    };
    assert(!covers(widget[1], row, col));
    assert(!covers(widget[2], row, col));
    assert(!covers(widget[6], row, col));
    assert(!covers(widget[7], row, col));
    lemma_shown_last(screen[(row, col)], widget, k, row, col);
}

} // verus!
