use vstd::prelude::*;

use crate::keys::IntoMatrixRowColumn;

verus! {

/// How many columns are there?
pub const COLUMNS: usize = 21;

/// How many rows are there?
pub const ROWS: usize = 6;

/// How many components are there in a color?
pub const COMPONENTS: usize = 3;

/// The length in bytes of the flattened color array: one color of
/// `COMPONENTS` bytes per matrix cell, row-major.
pub const BUFFER_LENGTH: usize = ROWS * COLUMNS * COMPONENTS;

/// The byte offset of a cell's first color component in the flattened
/// array, for the cell at the given matrix address.
pub open spec fn color_offset(rc: (u8, u8)) -> int {
    (rc.0 as int) * ((COLUMNS * COMPONENTS) as int) + (rc.1 as int) * (COMPONENTS as int)
}

/// A color array with every cell black.
pub open spec fn blank_colors() -> Seq<u8> {
    Seq::new(BUFFER_LENGTH as nat, |i: int| 0u8)
}

/// `buffer` with one entry's color staged into its cell: the three
/// component bytes, red then green then blue, at the cell's offset.
pub open spec fn with_staged_color<K: IntoMatrixRowColumn>(
    buffer: Seq<u8>,
    entry: (K, (u8, u8, u8)),
) -> Seq<u8> {
    let offset = color_offset(entry.0.spec_matrix_row_and_column());
    buffer.update(offset, (entry.1).0).update(offset + 1, (entry.1).1).update(
        offset + 2,
        (entry.1).2,
    )
}

/// The flattened color array that a list of key/color entries produces:
/// every cell starts black, and each entry in turn stages its color, later
/// entries overwriting earlier ones that name the same cell.
pub open spec fn flattened_colors<K: IntoMatrixRowColumn>(
    entries: Seq<(K, (u8, u8, u8))>,
) -> Seq<u8>
    decreases entries.len(),
{
    if entries.len() == 0 {
        blank_colors()
    } else {
        with_staged_color(flattened_colors(entries.drop_last()), entries.last())
    }
}

/// Whether an entry's cell covers the byte at offset `j` of the flattened
/// array.
pub open spec fn entry_covers<K: IntoMatrixRowColumn>(entry: (K, (u8, u8, u8)), j: int) -> bool {
    color_offset(entry.0.spec_matrix_row_and_column()) <= j < color_offset(
        entry.0.spec_matrix_row_and_column(),
    ) + COMPONENTS
}

/// Flattening any entry list yields a buffer of exactly the array length.
pub proof fn lemma_flattened_colors_len<K: IntoMatrixRowColumn>(entries: Seq<(K, (u8, u8, u8))>)
    ensures
        flattened_colors(entries).len() == BUFFER_LENGTH,
    decreases entries.len(),
{
    if entries.len() == 0 {
        assert(blank_colors().len() == BUFFER_LENGTH);
    } else {
        lemma_flattened_colors_len(entries.drop_last());
        entries.last().0.matrix_address_in_bounds();
    }
}

/// A full-array staging is an overwrite, not a merge: any byte of the
/// flattened array that no entry's cell covers is zero, so every key
/// omitted from the entry list comes out black.
pub proof fn lemma_omitted_cells_black<K: IntoMatrixRowColumn>(
    entries: Seq<(K, (u8, u8, u8))>,
    j: int,
)
    requires
        0 <= j < BUFFER_LENGTH,
        forall|i: int| 0 <= i < entries.len() ==> !entry_covers(#[trigger] entries[i], j),
    ensures
        flattened_colors(entries)[j] == 0,
    decreases entries.len(),
{
    if entries.len() == 0 {
    } else {
        let prefix = entries.drop_last();
        assert(forall|i: int| 0 <= i < prefix.len() ==> prefix[i] == entries[i]);
        lemma_omitted_cells_black(prefix, j);
        lemma_flattened_colors_len(prefix);
        entries.last().0.matrix_address_in_bounds();
    }
}

/// Distinct matrix cells occupy disjoint byte ranges of the flattened
/// array: each cell's offset is a multiple of `COMPONENTS`, so two
/// different addresses are at least `COMPONENTS` bytes apart.
pub proof fn lemma_distinct_cells_disjoint(a: (u8, u8), b: (u8, u8))
    requires
        a != b,
        a.0 < 6,
        a.1 < 21,
        b.0 < 6,
        b.1 < 21,
    ensures
        color_offset(a) + COMPONENTS <= color_offset(b) || color_offset(b) + COMPONENTS
            <= color_offset(a),
{
    let cell_a = (a.0 as int) * 21 + (a.1 as int);
    let cell_b = (b.0 as int) * 21 + (b.1 as int);
    if a.0 == b.0 {
        assert(a.1 != b.1);
    }
    assert(cell_a != cell_b);
    assert((COLUMNS * COMPONENTS) as int == 63 && COMPONENTS as int == 3);
    assert(color_offset(a) == 3 * cell_a);
    assert(color_offset(b) == 3 * cell_b);
}

/// When entries name a cell, the flattened array holds at that cell the
/// color of the last entry naming it: a later staging of the same cell
/// wins over every earlier one.
pub proof fn lemma_last_staging_wins<K: IntoMatrixRowColumn>(
    entries: Seq<(K, (u8, u8, u8))>,
    i: int,
)
    requires
        0 <= i < entries.len(),
        forall|l: int| i < l < entries.len() ==> (#[trigger] entries[l]).0.spec_matrix_row_and_column()
            != entries[i].0.spec_matrix_row_and_column(),
    ensures
        flattened_colors(entries)[color_offset(entries[i].0.spec_matrix_row_and_column())] == (
        entries[i].1).0,
        flattened_colors(entries)[color_offset(entries[i].0.spec_matrix_row_and_column()) + 1] == (
        entries[i].1).1,
        flattened_colors(entries)[color_offset(entries[i].0.spec_matrix_row_and_column()) + 2] == (
        entries[i].1).2,
    decreases entries.len(),
{
    let prefix = entries.drop_last();
    let last = entries.last();
    lemma_flattened_colors_len(prefix);
    entries[i].0.matrix_address_in_bounds();
    last.0.matrix_address_in_bounds();
    if i == entries.len() - 1 {
    } else {
        assert(forall|l: int| 0 <= l < prefix.len() ==> prefix[l] == entries[l]);
        lemma_last_staging_wins(prefix, i);
        lemma_distinct_cells_disjoint(
            last.0.spec_matrix_row_and_column(),
            entries[i].0.spec_matrix_row_and_column(),
        );
    }
}

/// The staged state of the RGB color array: the write-only buffer of
/// per-cell colors that array mutations build up and an array update
/// flushes to the hardware, together with the auto-update flag. The
/// buffer is never read back from the hardware; it only stages what the
/// next flush will send.
pub struct RgbKeyboard {
    buffer: Vec<u8>,
    auto_update: bool,
}

/// A native action owed during the teardown of an RGB handle.
#[derive(Clone, Copy, Debug, PartialEq, Eq, Structural)]
pub enum TeardownStep {
    /// Restore all keys to the colors the keyboard originally displayed.
    ResetAll,
    /// Disable the auto-update trigger, so that no stray flush follows the
    /// reset.
    DisableAutoUpdate,
}

/// A color array with every cell black.
fn blank_buffer() -> (buffer: Vec<u8>)
    ensures
        buffer@ == blank_colors(),
{
    let mut buffer: Vec<u8> = Vec::new();
    let mut i: usize = 0;
    while i < BUFFER_LENGTH
        invariant
            i <= BUFFER_LENGTH,
            buffer@.len() == i,
            forall|j: int| 0 <= j < i ==> buffer@[j] == 0u8,
        decreases BUFFER_LENGTH - i,
    {
        buffer.push(0);
        i = i + 1;
    }
    proof {
        assert(buffer@ =~= blank_colors());
    }
    buffer
}

impl RgbKeyboard {
    /// The staged color of every matrix cell: `COMPONENTS` bytes per cell,
    /// row-major.
    pub closed spec fn colors(&self) -> Seq<u8> {
        self.buffer@
    }

    /// Whether every array mutation immediately triggers a flush.
    pub closed spec fn auto_update_enabled(&self) -> bool {
        self.auto_update
    }

    /// A well-formed color array covers exactly the 6 x 21 matrix.
    pub open spec fn wf(&self) -> bool {
        self.colors().len() == BUFFER_LENGTH
    }

    /// A fresh color array: every cell black, auto-update disabled.
    pub fn new() -> (keyboard: Self)
        ensures
            keyboard.wf(),
            keyboard.colors() == blank_colors(),
            !keyboard.auto_update_enabled(),
    {
        RgbKeyboard { buffer: blank_buffer(), auto_update: false }
    }

    /// Stage a single color into the color array. Only the named cell's
    /// three component bytes change; every other cell and the auto-update
    /// flag are untouched.
    pub fn array_set_single<K: IntoMatrixRowColumn>(
        &mut self,
        key: K,
        red: u8,
        green: u8,
        blue: u8,
    )
        requires
            old(self).wf(),
        ensures
            final(self).wf(),
            final(self).colors() == with_staged_color(
                old(self).colors(),
                (key, (red, green, blue)),
            ),
            final(self).auto_update_enabled() == old(self).auto_update_enabled(),
    {
        let (row, column) = key.into_matrix_row_and_column();
        let cell: usize = COLUMNS * COMPONENTS;
        let offset: usize = row as usize * cell + column as usize * COMPONENTS;
        self.buffer[offset] = red;
        self.buffer[offset + 1] = green;
        self.buffer[offset + 2] = blue;
    }

    /// Stage a complete color array from a list of key/color entries. The
    /// result is a full overwrite, not a merge: every cell the list does
    /// not name is black afterwards, and when several entries name the
    /// same cell the last one wins.
    pub fn array_set_full<K: IntoMatrixRowColumn>(&mut self, entries: &[(K, (u8, u8, u8))])
        requires
            old(self).wf(),
        ensures
            final(self).wf(),
            final(self).colors() == flattened_colors(entries@),
            final(self).auto_update_enabled() == old(self).auto_update_enabled(),
    {
        let mut buffer = blank_buffer();
        let mut i: usize = 0;
        while i < entries.len()
            invariant
                i <= entries@.len(),
                buffer@.len() == BUFFER_LENGTH,
                buffer@ == flattened_colors::<K>(entries@.take(i as int)),
            decreases entries@.len() - i,
        {
            let entry = &entries[i];
            let (row, column) = entry.0.into_matrix_row_and_column();
            let cell: usize = COLUMNS * COMPONENTS;
            let offset: usize = row as usize * cell + column as usize * COMPONENTS;
            buffer[offset] = (entry.1).0;
            buffer[offset + 1] = (entry.1).1;
            buffer[offset + 2] = (entry.1).2;
            proof {
                assert(entries@.take(i + 1).drop_last() =~= entries@.take(i as int));
                assert(entries@.take(i + 1).last() == entries@[i as int]);
            }
            i = i + 1;
        }
        proof {
            assert(entries@.take(entries@.len() as int) =~= entries@);
        }
        self.buffer = buffer;
    }

    /// Enable or disable the auto-update trigger: with it enabled, every
    /// array mutation is immediately flushed to the hardware. By default
    /// it is disabled.
    pub fn array_auto_update(&mut self, auto_update: bool)
        requires
            old(self).wf(),
        ensures
            final(self).wf(),
            final(self).auto_update_enabled() == auto_update,
            final(self).colors() == old(self).colors(),
    {
        self.auto_update = auto_update;
    }

    /// The flattened array buffer a full-array update hands to the
    /// hardware: `BUFFER_LENGTH` bytes, row-major, three component bytes
    /// per cell. Flushing does not clear it; later partial stagings build
    /// on top of it.
    pub fn staged_colors(&self) -> (buffer: &Vec<u8>)
        ensures
            buffer@ == self.colors(),
    {
        &self.buffer
    }

    /// Whether every array mutation immediately triggers a flush.
    pub fn is_auto_update(&self) -> (enabled: bool)
        ensures
            enabled == self.auto_update_enabled(),
    {
        self.auto_update
    }

    /// The native actions owed when an RGB handle's lifetime ends, in the
    /// order they must be performed: exactly one restore of the keyboard's
    /// original colors, then exactly one disabling of auto-update. A
    /// holder of a handle performs them on every exit path, and this call
    /// leaves the staged array itself untouched.
    pub fn teardown(&mut self) -> (steps: Vec<TeardownStep>)
        requires
            old(self).wf(),
        ensures
            final(self).wf(),
            !final(self).auto_update_enabled(),
            final(self).colors() == old(self).colors(),
            steps@ == seq![TeardownStep::ResetAll, TeardownStep::DisableAutoUpdate],
    {
        self.auto_update = false;
        let mut steps: Vec<TeardownStep> = Vec::new();
        steps.push(TeardownStep::ResetAll);
        steps.push(TeardownStep::DisableAutoUpdate);
        proof {
            assert(steps@ =~= seq![TeardownStep::ResetAll, TeardownStep::DisableAutoUpdate]);
        }
        steps
    }
}

impl Default for RgbKeyboard {
    /// A fresh color array: every cell black, auto-update disabled.
    fn default() -> (keyboard: Self)
        ensures
            keyboard.wf(),
            keyboard.colors() == blank_colors(),
            !keyboard.auto_update_enabled(),
    {
        RgbKeyboard::new()
    }
}

} // verus!
