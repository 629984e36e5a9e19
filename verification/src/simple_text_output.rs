//! The Simple Text Output protocol: the console output device.
//!
//! In firmware memory the protocol is a table of nine function pointers
//! followed by a pointer to the current-mode data;
//! [`lemma_simple_text_output_layout`] proves that table's byte layout. The
//! structure here models the device behind the table: the text modes it
//! supports, the glyphs it cannot render, the glyphs drawn since the screen
//! was last cleared, and the current-mode data firmware updates as a side
//! effect of mode-changing calls.
//!
//! Conformance facts the UEFI Specification fixes for every output device are
//! carried in [`EFI_SIMPLE_TEXT_OUTPUT_PROTOCOL::wf`]: mode 0 is always the
//! 80-column, 25-row grid; mode 1, when the device defines it, is either the
//! 80-by-50 grid or absent; higher modes are device-defined. Querying any
//! unsupported mode number yields `EFI_UNSUPPORTED` rather than a geometry.
//! Output follows the EFI cursor advance rules, and a string containing
//! glyphs the device cannot render is still drawn without them, with the
//! `EFI_WARN_UNKNOWN_GLYPH` warning reported instead of success.

use vstd::prelude::*;

use crate::layout::spec_field_offset;
use crate::layout::spec_fields_bounded;
use crate::layout::spec_fields_of;
use crate::layout::spec_struct_size;
use crate::layout::FieldDesc;
use crate::status::EFI_SUCCESS;
use crate::status::EFI_UNSUPPORTED;
use crate::status::EFI_WARN_UNKNOWN_GLYPH;
use crate::types::BOOLEAN;
use crate::types::CHAR16;
use crate::types::EFI_STATUS;
use crate::types::EFI_GUID;
use crate::types::INT32;
use crate::types::UINTN;

verus! {

/// GUID that names the [`EFI_SIMPLE_TEXT_OUTPUT_PROTOCOL`] for protocol
/// lookup.
pub fn simple_text_output_protocol_guid() -> (g: EFI_GUID)
    ensures
        g.0 == 0x387477C2,
        g.1 == 0x69D7,
        g.2 == 0x11D2,
        g.3@ == seq![0x8Eu8, 0x39, 0x00, 0xA0, 0xC9, 0x69, 0x72, 0x3B],
{
    let g = EFI_GUID(0x387477C2, 0x69D7, 0x11D2, [0x8E, 0x39, 0x00, 0xA0, 0xC9, 0x69, 0x72, 0x3B]);
    proof {
        assert(g.3@ =~= seq![0x8Eu8, 0x39, 0x00, 0xA0, 0xC9, 0x69, 0x72, 0x3B]);
    }
    g
}

/// The null character: terminates every string handed to the output
/// operations and is never drawn.
pub const CHAR_NULL: CHAR16 = 0x0000;

/// Backspace: moves the cursor one column left, staying put at column 0.
pub const CHAR_BACKSPACE: CHAR16 = 0x0008;

/// Line feed: moves the cursor down one row; on the bottom row the screen
/// scrolls and the cursor stays.
pub const CHAR_LINEFEED: CHAR16 = 0x000A;

/// Carriage return: moves the cursor to column 0 of the current row.
pub const CHAR_CARRIAGE_RETURN: CHAR16 = 0x000D;

/// The mode data firmware keeps current for an output device. All fields are
/// read-only to consumers; they change only as a side effect of the
/// protocol's calls.
#[derive(Clone, Copy, PartialEq, Eq, Structural, Debug)]
pub struct SIMPLE_TEXT_OUTPUT_MODE {
    /// The number of modes the device accepts in query-mode and set-mode.
    pub MaxMode: INT32,
    /// The text mode of the output device.
    pub Mode: INT32,
    /// The current character output attribute.
    pub Attribute: INT32,
    /// The cursor's column.
    pub CursorColumn: INT32,
    /// The cursor's row.
    pub CursorRow: INT32,
    /// Whether the cursor is currently visible.
    pub CursorVisible: BOOLEAN,
}

/// The largest mode count, geometry extent and attribute the 32-bit signed
/// mode fields can carry.
pub const MODE_FIELD_LIMIT: UINTN = 0x7FFF_FFFF;

/// The character is one of the control characters the cursor advance rules
/// handle: backspace, line feed or carriage return.
pub open spec fn spec_is_control(c: CHAR16) -> bool {
    c == CHAR_BACKSPACE || c == CHAR_LINEFEED || c == CHAR_CARRIAGE_RETURN
}

/// The device can handle the character: control characters always, any other
/// glyph exactly when the device does not list it as unrenderable.
pub open spec fn spec_renderable(unrenderable: Seq<CHAR16>, c: CHAR16) -> bool {
    spec_is_control(c) || !unrenderable.contains(c)
}

/// The device can handle every character of the string.
pub open spec fn spec_all_renderable(unrenderable: Seq<CHAR16>, s: Seq<CHAR16>) -> bool {
    forall|i: int| 0 <= i < s.len() ==> spec_renderable(unrenderable, #[trigger] s[i])
}

/// The index of the first null character of a null-terminated string.
pub open spec fn spec_nul_index(s: Seq<CHAR16>) -> int
    decreases s.len(),
{
    if s.len() == 0 {
        0
    } else if s[0] == CHAR_NULL {
        0
    } else {
        1 + spec_nul_index(s.drop_first())
    }
}

/// The characters of a null-terminated string: everything before the first
/// null.
pub open spec fn spec_str_content(s: Seq<CHAR16>) -> Seq<CHAR16> {
    s.take(spec_nul_index(s))
}

/// In a sequence that holds a null, the first null lies within the sequence,
/// holds the null character, and everything before it does not.
pub proof fn lemma_nul_index(s: Seq<CHAR16>)
    requires
        s.contains(CHAR_NULL),
    ensures
        0 <= spec_nul_index(s) < s.len(),
        s[spec_nul_index(s)] == CHAR_NULL,
        forall|j: int| 0 <= j < spec_nul_index(s) ==> s[j] != CHAR_NULL,
    decreases s.len(),
{
    if s.len() > 0 && s[0] != CHAR_NULL {
        let rest = s.drop_first();
        let k = choose|k: int| 0 <= k < s.len() && s[k] == CHAR_NULL;
        assert(rest[k - 1] == s[k]);
        assert(rest.contains(CHAR_NULL));
        lemma_nul_index(rest);
        assert forall|j: int| 0 <= j < spec_nul_index(s) implies s[j] != CHAR_NULL by {
            if j > 0 {
                assert(rest[j - 1] == s[j]);
            }
        }
    }
}

/// One character's effect on the screen log and cursor, under the EFI cursor
/// advance rules for a `cols` by `rows` geometry: carriage return moves to
/// column 0; line feed moves down a row, staying on the bottom row while the
/// screen scrolls; backspace moves one column left, staying at column 0; an
/// unrenderable glyph is skipped whole; any other glyph is drawn and advances
/// the cursor one column, wrapping to the next row from the last column. The
/// state is the glyphs drawn so far, the cursor column and the cursor row.
pub open spec fn spec_output_step(
    unrenderable: Seq<CHAR16>,
    cols: int,
    rows: int,
    st: (Seq<CHAR16>, int, int),
    c: CHAR16,
) -> (Seq<CHAR16>, int, int) {
    let screen = st.0;
    let col = st.1;
    let row = st.2;
    if c == CHAR_CARRIAGE_RETURN {
        (screen, 0, row)
    } else if c == CHAR_LINEFEED {
        (
            screen,
            col,
            if row + 1 < rows {
                row + 1
            } else {
                row
            },
        )
    } else if c == CHAR_BACKSPACE {
        (
            screen,
            if col > 0 {
                col - 1
            } else {
                0
            },
            row,
        )
    } else if unrenderable.contains(c) {
        (screen, col, row)
    } else if col + 1 < cols {
        (screen.push(c), col + 1, row)
    } else {
        (
            screen.push(c),
            0,
            if row + 1 < rows {
                row + 1
            } else {
                row
            },
        )
    }
}

/// The screen log and cursor after outputting a whole string, character by
/// character from the left.
pub open spec fn spec_output_fold(
    unrenderable: Seq<CHAR16>,
    cols: int,
    rows: int,
    st: (Seq<CHAR16>, int, int),
    content: Seq<CHAR16>,
) -> (Seq<CHAR16>, int, int)
    decreases content.len(),
{
    if content.len() == 0 {
        st
    } else {
        spec_output_fold(
            unrenderable,
            cols,
            rows,
            spec_output_step(unrenderable, cols, rows, st, content[0]),
            content.drop_first(),
        )
    }
}

/// Outputting one more character at the end folds that character into the
/// state everything before it produced.
pub proof fn lemma_output_fold_push(
    unrenderable: Seq<CHAR16>,
    cols: int,
    rows: int,
    st: (Seq<CHAR16>, int, int),
    content: Seq<CHAR16>,
    c: CHAR16,
)
    ensures
        spec_output_fold(unrenderable, cols, rows, st, content.push(c)) == spec_output_step(
            unrenderable,
            cols,
            rows,
            spec_output_fold(unrenderable, cols, rows, st, content),
            c,
        ),
    decreases content.len(),
{
    if content.len() == 0 {
        assert(content.push(c)[0] == c);
        assert(content.push(c).drop_first() =~= Seq::<CHAR16>::empty());
        assert(spec_output_fold(
            unrenderable,
            cols,
            rows,
            spec_output_step(unrenderable, cols, rows, st, c),
            Seq::<CHAR16>::empty(),
        ) == spec_output_step(unrenderable, cols, rows, st, c));
    } else {
        assert(content.push(c)[0] == content[0]);
        assert(content.push(c).drop_first() =~= content.drop_first().push(c));
        lemma_output_fold_push(
            unrenderable,
            cols,
            rows,
            spec_output_step(unrenderable, cols, rows, st, content[0]),
            content.drop_first(),
            c,
        );
    }
}

/// A string is fully renderable exactly when everything before its last
/// character is and the last character is too.
pub proof fn lemma_all_renderable_push(unrenderable: Seq<CHAR16>, s: Seq<CHAR16>, c: CHAR16)
    ensures
        spec_all_renderable(unrenderable, s.push(c)) == (spec_all_renderable(unrenderable, s)
            && spec_renderable(unrenderable, c)),
{
    assert(s.push(c)[s.len() as int] == c);
    if spec_all_renderable(unrenderable, s) && spec_renderable(unrenderable, c) {
        assert forall|i: int| 0 <= i < s.push(c).len() implies spec_renderable(
            unrenderable,
            #[trigger] s.push(c)[i],
        ) by {
            if i < s.len() {
                assert(s.push(c)[i] == s[i]);
            }
        }
    }
    if spec_all_renderable(unrenderable, s.push(c)) {
        assert forall|i: int| 0 <= i < s.len() implies spec_renderable(
            unrenderable,
            #[trigger] s[i],
        ) by {
            assert(s.push(c)[i] == s[i]);
        }
    }
}

/// Model of a conformant output device: the geometries of the text modes it
/// defines (an absent entry is a mode number the device lists but does not
/// support, which the UEFI Specification permits only for mode 1), the glyphs
/// it cannot render, the glyphs drawn since the screen was last cleared, and
/// the current-mode data.
pub struct EFI_SIMPLE_TEXT_OUTPUT_PROTOCOL {
    modes: Vec<Option<(UINTN, UINTN)>>,
    unrenderable: Vec<CHAR16>,
    screen: Vec<CHAR16>,
    /// The current-mode data. In firmware memory the protocol table holds a
    /// pointer to it; the model holds it by value.
    pub Mode: SIMPLE_TEXT_OUTPUT_MODE,
}

impl EFI_SIMPLE_TEXT_OUTPUT_PROTOCOL {
    /// The geometry of each mode number the device defines; `None` is a
    /// defined but unsupported mode number.
    pub closed spec fn spec_modes(self) -> Seq<Option<(UINTN, UINTN)>> {
        self.modes@
    }

    /// The glyphs the device cannot render.
    pub closed spec fn spec_unrenderable(self) -> Seq<CHAR16> {
        self.unrenderable@
    }

    /// The glyphs drawn since the screen was last cleared, in output order.
    pub closed spec fn spec_screen(self) -> Seq<CHAR16> {
        self.screen@
    }

    /// The current-mode data.
    pub closed spec fn spec_mode_data(self) -> SIMPLE_TEXT_OUTPUT_MODE {
        self.Mode
    }

    /// The device supports this mode number: it is in range and its geometry
    /// is defined.
    pub open spec fn spec_mode_supported(self, n: int) -> bool {
        0 <= n < self.spec_modes().len() && self.spec_modes()[n] is Some
    }

    /// The geometry of the current mode, as columns and rows.
    pub open spec fn spec_current_geometry(self) -> (int, int) {
        let g = self.spec_modes()[self.spec_mode_data().Mode as int]->Some_0;
        (g.0 as int, g.1 as int)
    }

    /// The device is conformant: mode 0 is the 80-by-25 grid; mode 1, if the
    /// device defines it, is the 80-by-50 grid or absent; every other defined
    /// mode is supported with a positive geometry the mode fields can carry;
    /// the current mode is a supported one, the cursor lies inside its
    /// geometry, the mode count matches, and the attribute fits in its seven
    /// defined bits.
    pub closed spec fn wf(self) -> bool {
        &&& 1 <= self.modes@.len() <= MODE_FIELD_LIMIT
        &&& self.modes@[0] == Some((80usize, 25usize))
        &&& forall|i: int|
            0 <= i < self.modes@.len() && i != 1 ==> (#[trigger] self.modes@[i]) is Some
        &&& (self.modes@.len() >= 2 && self.modes@[1] is Some ==> self.modes@[1] == Some(
            (80usize, 50usize),
        ))
        &&& forall|i: int|
            0 <= i < self.modes@.len() ==> ((#[trigger] self.modes@[i]) matches Some(g) ==> 0 < g.0
                <= MODE_FIELD_LIMIT && 0 < g.1 <= MODE_FIELD_LIMIT)
        &&& self.Mode.MaxMode == self.modes@.len()
        &&& 0 <= self.Mode.Mode < self.Mode.MaxMode
        &&& self.modes@[self.Mode.Mode as int] is Some
        &&& 0 <= self.Mode.CursorColumn < self.spec_current_geometry().0
        &&& 0 <= self.Mode.CursorRow < self.spec_current_geometry().1
        &&& 0 <= self.Mode.Attribute < 0x80
    }

    /// The mode geometries a conformant device may be built over. Mode 0 must
    /// be 80 by 25; mode 1, if defined, must be 80 by 50 or absent; higher
    /// modes must be supported, positive and small enough for the mode
    /// fields.
    pub open spec fn spec_modes_conformant(modes: Seq<Option<(UINTN, UINTN)>>) -> bool {
        &&& 1 <= modes.len() <= MODE_FIELD_LIMIT
        &&& modes[0] == Some((80usize, 25usize))
        &&& forall|i: int| 0 <= i < modes.len() && i != 1 ==> (#[trigger] modes[i]) is Some
        &&& (modes.len() >= 2 && modes[1] is Some ==> modes[1] == Some((80usize, 50usize)))
        &&& forall|i: int|
            0 <= i < modes.len() ==> ((#[trigger] modes[i]) matches Some(g) ==> 0 < g.0
                <= MODE_FIELD_LIMIT && 0 < g.1 <= MODE_FIELD_LIMIT)
    }

    /// A device over the given mode table, in mode 0 with a cleared screen,
    /// the cursor at the origin and the default light-gray-on-black
    /// attribute.
    pub fn with_modes(modes: Vec<Option<(UINTN, UINTN)>>, unrenderable: Vec<CHAR16>) -> (dev: Self)
        requires
            Self::spec_modes_conformant(modes@),
        ensures
            dev.wf(),
            dev.spec_modes() == modes@,
            dev.spec_unrenderable() == unrenderable@,
            dev.spec_screen() == Seq::<CHAR16>::empty(),
            dev.spec_mode_data().Mode == 0,
            dev.spec_mode_data().MaxMode == modes@.len(),
            dev.spec_mode_data().CursorColumn == 0,
            dev.spec_mode_data().CursorRow == 0,
            dev.spec_mode_data().Attribute == 0x07,
            dev.spec_mode_data().CursorVisible == 1,
    {
        let max_mode = modes.len();
        EFI_SIMPLE_TEXT_OUTPUT_PROTOCOL {
            modes,
            unrenderable,
            screen: Vec::new(),
            Mode: SIMPLE_TEXT_OUTPUT_MODE {
                MaxMode: max_mode as INT32,
                Mode: 0,
                Attribute: 0x07,
                CursorColumn: 0,
                CursorRow: 0,
                CursorVisible: 1,
            },
        }
    }

    /// A device with the two standard modes, 80 by 25 and 80 by 50, and the
    /// given unrenderable glyphs.
    pub fn new(unrenderable: Vec<CHAR16>) -> (dev: Self)
        ensures
            dev.wf(),
            dev.spec_modes().len() == 2,
            dev.spec_mode_supported(0),
            dev.spec_mode_supported(1),
            dev.spec_unrenderable() == unrenderable@,
            dev.spec_screen() == Seq::<CHAR16>::empty(),
            dev.spec_mode_data().Mode == 0,
            dev.spec_mode_data().CursorColumn == 0,
            dev.spec_mode_data().CursorRow == 0,
    {
        let mut modes: Vec<Option<(UINTN, UINTN)>> = Vec::new();
        modes.push(Some((80, 25)));
        modes.push(Some((80, 50)));
        proof {
            assert(modes@[0] == Some((80usize, 25usize)));
            assert(modes@[1] == Some((80usize, 50usize)));
        }
        Self::with_modes(modes, unrenderable)
    }

    /// The current-mode data, as consumers read it through the table's mode
    /// pointer.
    pub fn mode_data(&self) -> (r: SIMPLE_TEXT_OUTPUT_MODE)
        ensures
            r == self.spec_mode_data(),
    {
        self.Mode
    }

    /// The glyphs drawn since the screen was last cleared, in output order.
    pub fn screen_glyphs(&self) -> (r: Vec<CHAR16>)
        ensures
            r@ == self.spec_screen(),
    {
        let mut out: Vec<CHAR16> = Vec::new();
        let mut i: usize = 0;
        while i < self.screen.len()
            invariant
                i <= self.screen@.len(),
                out@ == self.screen@.take(i as int),
            decreases self.screen@.len() - i,
        {
            out.push(self.screen[i]);
            proof {
                assert(self.screen@.take(i + 1) =~= self.screen@.take(i as int).push(
                    self.screen@[i as int],
                ));
            }
            i = i + 1;
        }
        proof {
            assert(self.screen@.take(self.screen@.len() as int) =~= self.screen@);
        }
        out
    }

    /// The geometry of the current mode.
    fn current_geometry(&self) -> (g: (UINTN, UINTN))
        requires
            self.wf(),
        ensures
            g.0 as int == self.spec_current_geometry().0,
            g.1 as int == self.spec_current_geometry().1,
            0 < g.0 <= MODE_FIELD_LIMIT,
            0 < g.1 <= MODE_FIELD_LIMIT,
    {
        let entry = self.modes[self.Mode.Mode as usize];
        match entry {
            Some(g) => g,
            None => {
                proof {
                    assert(false);
                }
                (80, 25)
            },
        }
    }

    /// Whether the device lists this glyph as one it cannot render.
    fn lists_unrenderable(&self, c: CHAR16) -> (r: bool)
        ensures
            r == self.spec_unrenderable().contains(c),
    {
        let mut i: usize = 0;
        while i < self.unrenderable.len()
            invariant
                i <= self.unrenderable@.len(),
                forall|j: int| 0 <= j < i ==> self.unrenderable@[j] != c,
            decreases self.unrenderable@.len() - i,
        {
            if self.unrenderable[i] == c {
                return true;
            }
            i = i + 1;
        }
        false
    }

    /// The index of the terminating null of `s`.
    fn nul_index(s: &Vec<CHAR16>) -> (n: usize)
        requires
            s@.contains(CHAR_NULL),
        ensures
            n == spec_nul_index(s@),
            n < s@.len(),
            s@[n as int] == CHAR_NULL,
            forall|j: int| 0 <= j < n ==> s@[j] != CHAR_NULL,
    {
        proof {
            lemma_nul_index(s@);
        }
        let mut n: usize = 0;
        while s[n] != 0
            invariant
                s@.contains(CHAR_NULL),
                0 <= spec_nul_index(s@) < s@.len(),
                0 <= n <= spec_nul_index(s@),
                n < s.len(),
                forall|j: int| 0 <= j < n ==> s@[j] != CHAR_NULL,
            decreases spec_nul_index(s@) - n,
        {
            proof {
                lemma_nul_index(s@);
            }
            n = n + 1;
        }
        proof {
            lemma_nul_index(s@);
        }
        n
    }

    /// Resets the text output device hardware: back to mode 0, the screen
    /// cleared, the cursor at the origin. When `ExtendedVerification` is TRUE
    /// the firmware may take longer to verify the device; the outcome is the
    /// same. Returns `EFI_SUCCESS`; the specification allows
    /// `EFI_DEVICE_ERROR` only for hardware that fails verification, which
    /// this simulated device never does.
    pub fn Reset(&mut self, ExtendedVerification: BOOLEAN) -> (r: EFI_STATUS)
        requires
            old(self).wf(),
        ensures
            final(self).wf(),
            r == EFI_SUCCESS,
            final(self).spec_modes() == old(self).spec_modes(),
            final(self).spec_unrenderable() == old(self).spec_unrenderable(),
            final(self).spec_screen() == Seq::<CHAR16>::empty(),
            final(self).spec_mode_data().Mode == 0,
            final(self).spec_mode_data().MaxMode == old(self).spec_mode_data().MaxMode,
            final(self).spec_mode_data().Attribute == old(self).spec_mode_data().Attribute,
            final(self).spec_mode_data().CursorColumn == 0,
            final(self).spec_mode_data().CursorRow == 0,
            final(self).spec_mode_data().CursorVisible == old(self).spec_mode_data().CursorVisible,
    {
        self.screen.clear();
        self.Mode.Mode = 0;
        self.Mode.CursorColumn = 0;
        self.Mode.CursorRow = 0;
        EFI_SUCCESS
    }

    /// Writes a null-terminated string to the output device at the current
    /// cursor position, advancing the cursor by the EFI cursor advance rules.
    /// Glyphs the device cannot render are skipped and the rest are drawn:
    /// the call then returns the `EFI_WARN_UNKNOWN_GLYPH` warning instead of
    /// `EFI_SUCCESS`. On this device the current mode is always a defined
    /// text mode, so the `EFI_UNSUPPORTED` case never arises.
    pub fn OutputString(&mut self, String: &Vec<CHAR16>) -> (r: EFI_STATUS)
        requires
            old(self).wf(),
            String@.contains(CHAR_NULL),
        ensures
            final(self).wf(),
            final(self).spec_modes() == old(self).spec_modes(),
            final(self).spec_unrenderable() == old(self).spec_unrenderable(),
            final(self).spec_mode_data().Mode == old(self).spec_mode_data().Mode,
            final(self).spec_mode_data().MaxMode == old(self).spec_mode_data().MaxMode,
            final(self).spec_mode_data().Attribute == old(self).spec_mode_data().Attribute,
            final(self).spec_mode_data().CursorVisible == old(self).spec_mode_data().CursorVisible,
            ({
                let content = spec_str_content(String@);
                let st = spec_output_fold(
                    old(self).spec_unrenderable(),
                    old(self).spec_current_geometry().0,
                    old(self).spec_current_geometry().1,
                    (
                        old(self).spec_screen(),
                        old(self).spec_mode_data().CursorColumn as int,
                        old(self).spec_mode_data().CursorRow as int,
                    ),
                    content,
                );
                &&& final(self).spec_screen() == st.0
                &&& final(self).spec_mode_data().CursorColumn == st.1
                &&& final(self).spec_mode_data().CursorRow == st.2
                &&& (spec_all_renderable(old(self).spec_unrenderable(), content) ==> r
                    == EFI_SUCCESS)
                &&& (!spec_all_renderable(old(self).spec_unrenderable(), content) ==> r
                    == EFI_WARN_UNKNOWN_GLYPH)
            }),
    {
        let n = Self::nul_index(String);
        let ghost content = spec_str_content(String@);
        proof {
            assert(content =~= String@.take(n as int));
        }
        let (cols, rows) = self.current_geometry();
        let mut col: usize = self.Mode.CursorColumn as usize;
        let mut row: usize = self.Mode.CursorRow as usize;
        let ghost unrend = self.unrenderable@;
        let ghost st0 = (self.screen@, col as int, row as int);
        let mut warned = false;
        let mut j: usize = 0;
        while j < n
            invariant
                old(self).wf(),
                self.modes == old(self).modes,
                self.unrenderable == old(self).unrenderable,
                self.Mode == old(self).Mode,
                unrend == old(self).unrenderable@,
                cols as int == old(self).spec_current_geometry().0,
                rows as int == old(self).spec_current_geometry().1,
                0 < cols <= MODE_FIELD_LIMIT,
                0 < rows <= MODE_FIELD_LIMIT,
                st0 == (
                    old(self).spec_screen(),
                    old(self).spec_mode_data().CursorColumn as int,
                    old(self).spec_mode_data().CursorRow as int,
                ),
                content == spec_str_content(String@),
                content =~= String@.take(n as int),
                n < String@.len(),
                j <= n,
                0 <= col < cols,
                0 <= row < rows,
                (self.screen@, col as int, row as int) == spec_output_fold(
                    unrend,
                    cols as int,
                    rows as int,
                    st0,
                    content.take(j as int),
                ),
                warned == !spec_all_renderable(unrend, content.take(j as int)),
            decreases n - j,
        {
            let c = String[j];
            proof {
                assert(content[j as int] == String@[j as int]);
                assert(content.take(j as int).push(content[j as int]) =~= content.take(j + 1));
                lemma_output_fold_push(
                    unrend,
                    cols as int,
                    rows as int,
                    st0,
                    content.take(j as int),
                    content[j as int],
                );
                lemma_all_renderable_push(unrend, content.take(j as int), content[j as int]);
            }
            if c == CHAR_CARRIAGE_RETURN {
                col = 0;
            } else if c == CHAR_LINEFEED {
                if row + 1 < rows {
                    row = row + 1;
                }
            } else if c == CHAR_BACKSPACE {
                if col > 0 {
                    col = col - 1;
                }
            } else if self.lists_unrenderable(c) {
                warned = true;
            } else {
                self.screen.push(c);
                if col + 1 < cols {
                    col = col + 1;
                } else {
                    col = 0;
                    if row + 1 < rows {
                        row = row + 1;
                    }
                }
            }
            j = j + 1;
        }
        proof {
            assert(content.take(n as int) =~= content);
        }
        self.Mode.CursorColumn = col as INT32;
        self.Mode.CursorRow = row as INT32;
        if warned {
            EFI_WARN_UNKNOWN_GLYPH
        } else {
            EFI_SUCCESS
        }
    }

    /// Verifies that the device can render every character of a
    /// null-terminated string, without drawing anything. Returns
    /// `EFI_SUCCESS` when it can and `EFI_UNSUPPORTED` when some character
    /// has no glyph on this device.
    pub fn TestString(&mut self, String: &Vec<CHAR16>) -> (r: EFI_STATUS)
        requires
            old(self).wf(),
            String@.contains(CHAR_NULL),
        ensures
            final(self).wf(),
            *final(self) == *old(self),
            spec_all_renderable(old(self).spec_unrenderable(), spec_str_content(String@)) ==> r
                == EFI_SUCCESS,
            !spec_all_renderable(old(self).spec_unrenderable(), spec_str_content(String@)) ==> r
                == EFI_UNSUPPORTED,
    {
        let n = Self::nul_index(String);
        let ghost content = spec_str_content(String@);
        proof {
            assert(content =~= String@.take(n as int));
        }
        let mut ok = true;
        let mut j: usize = 0;
        while j < n
            invariant
                *self == *old(self),
                content == spec_str_content(String@),
                content =~= String@.take(n as int),
                n < String@.len(),
                j <= n,
                ok == spec_all_renderable(self.unrenderable@, content.take(j as int)),
            decreases n - j,
        {
            let c = String[j];
            proof {
                assert(content[j as int] == String@[j as int]);
                assert(content.take(j as int).push(content[j as int]) =~= content.take(j + 1));
                lemma_all_renderable_push(
                    self.unrenderable@,
                    content.take(j as int),
                    content[j as int],
                );
            }
            let control = c == CHAR_BACKSPACE || c == CHAR_LINEFEED || c == CHAR_CARRIAGE_RETURN;
            if !control && self.lists_unrenderable(c) {
                ok = false;
            }
            j = j + 1;
        }
        proof {
            assert(content.take(n as int) =~= content);
        }
        if ok {
            EFI_SUCCESS
        } else {
            EFI_UNSUPPORTED
        }
    }

    /// Returns the geometry of an available text mode. Mode 0 always reports
    /// the 80-by-25 grid. A supported mode number fills in its columns and
    /// rows and returns `EFI_SUCCESS`; an unsupported mode number returns
    /// `EFI_UNSUPPORTED` and leaves the output parameters untouched.
    pub fn QueryMode(&mut self, ModeNumber: UINTN, Columns: &mut UINTN, Rows: &mut UINTN) -> (r:
        EFI_STATUS)
        requires
            old(self).wf(),
        ensures
            final(self).wf(),
            *final(self) == *old(self),
            old(self).spec_mode_supported(ModeNumber as int) ==> {
                &&& r == EFI_SUCCESS
                &&& Some((*final(Columns), *final(Rows))) == old(self).spec_modes()[ModeNumber as int]
            },
            !old(self).spec_mode_supported(ModeNumber as int) ==> {
                &&& r == EFI_UNSUPPORTED
                &&& *final(Columns) == *old(Columns)
                &&& *final(Rows) == *old(Rows)
            },
            ModeNumber == 0 ==> r == EFI_SUCCESS && *final(Columns) == 80 && *final(Rows) == 25,
    {
        if ModeNumber < self.modes.len() {
            let entry = self.modes[ModeNumber];
            match entry {
                Some(g) => {
                    *Columns = g.0;
                    *Rows = g.1;
                    EFI_SUCCESS
                },
                None => EFI_UNSUPPORTED,
            }
        } else {
            EFI_UNSUPPORTED
        }
    }

    /// Sets the output device to a supported mode: the screen is cleared,
    /// the cursor moves to the origin and the call returns `EFI_SUCCESS`. An
    /// unsupported mode number returns `EFI_UNSUPPORTED` and changes
    /// nothing.
    pub fn SetMode(&mut self, ModeNumber: UINTN) -> (r: EFI_STATUS)
        requires
            old(self).wf(),
        ensures
            final(self).wf(),
            final(self).spec_modes() == old(self).spec_modes(),
            final(self).spec_unrenderable() == old(self).spec_unrenderable(),
            old(self).spec_mode_supported(ModeNumber as int) ==> {
                &&& r == EFI_SUCCESS
                &&& final(self).spec_mode_data().Mode == ModeNumber
                &&& final(self).spec_screen() == Seq::<CHAR16>::empty()
                &&& final(self).spec_mode_data().CursorColumn == 0
                &&& final(self).spec_mode_data().CursorRow == 0
            },
            !old(self).spec_mode_supported(ModeNumber as int) ==> {
                &&& r == EFI_UNSUPPORTED
                &&& *final(self) == *old(self)
            },
            final(self).spec_mode_data().MaxMode == old(self).spec_mode_data().MaxMode,
            final(self).spec_mode_data().Attribute == old(self).spec_mode_data().Attribute,
            final(self).spec_mode_data().CursorVisible == old(self).spec_mode_data().CursorVisible,
    {
        if ModeNumber < self.modes.len() {
            let entry = self.modes[ModeNumber];
            match entry {
                Some(_) => {
                    self.Mode.Mode = ModeNumber as INT32;
                    self.Mode.CursorColumn = 0;
                    self.Mode.CursorRow = 0;
                    self.screen.clear();
                    EFI_SUCCESS
                },
                None => EFI_UNSUPPORTED,
            }
        } else {
            EFI_UNSUPPORTED
        }
    }

    /// Sets the attribute later output and clear-screen calls draw with:
    /// bits 0 through 3 the foreground color, bits 4 through 6 the
    /// background. The reserved upper bits must be zero.
    pub fn SetAttribute(&mut self, Attribute: UINTN) -> (r: EFI_STATUS)
        requires
            old(self).wf(),
            Attribute < 0x80,
        ensures
            final(self).wf(),
            r == EFI_SUCCESS,
            final(self).spec_mode_data().Attribute == Attribute,
            final(self).spec_modes() == old(self).spec_modes(),
            final(self).spec_unrenderable() == old(self).spec_unrenderable(),
            final(self).spec_screen() == old(self).spec_screen(),
            final(self).spec_mode_data().Mode == old(self).spec_mode_data().Mode,
            final(self).spec_mode_data().MaxMode == old(self).spec_mode_data().MaxMode,
            final(self).spec_mode_data().CursorColumn == old(self).spec_mode_data().CursorColumn,
            final(self).spec_mode_data().CursorRow == old(self).spec_mode_data().CursorRow,
            final(self).spec_mode_data().CursorVisible == old(self).spec_mode_data().CursorVisible,
    {
        self.Mode.Attribute = Attribute as INT32;
        EFI_SUCCESS
    }

    /// Clears the display to the currently selected background color and
    /// moves the cursor to the origin.
    pub fn ClearScreen(&mut self) -> (r: EFI_STATUS)
        requires
            old(self).wf(),
        ensures
            final(self).wf(),
            r == EFI_SUCCESS,
            final(self).spec_screen() == Seq::<CHAR16>::empty(),
            final(self).spec_mode_data().CursorColumn == 0,
            final(self).spec_mode_data().CursorRow == 0,
            final(self).spec_modes() == old(self).spec_modes(),
            final(self).spec_unrenderable() == old(self).spec_unrenderable(),
            final(self).spec_mode_data().Mode == old(self).spec_mode_data().Mode,
            final(self).spec_mode_data().MaxMode == old(self).spec_mode_data().MaxMode,
            final(self).spec_mode_data().Attribute == old(self).spec_mode_data().Attribute,
            final(self).spec_mode_data().CursorVisible == old(self).spec_mode_data().CursorVisible,
    {
        self.screen.clear();
        self.Mode.CursorColumn = 0;
        self.Mode.CursorRow = 0;
        EFI_SUCCESS
    }

    /// Moves the cursor. The position must lie inside the current mode's
    /// geometry; a position outside it returns `EFI_UNSUPPORTED` and changes
    /// nothing.
    pub fn SetCursorPosition(&mut self, Column: UINTN, Row: UINTN) -> (r: EFI_STATUS)
        requires
            old(self).wf(),
        ensures
            final(self).wf(),
            Column < old(self).spec_current_geometry().0 && Row < old(
                self,
            ).spec_current_geometry().1 ==> {
                &&& r == EFI_SUCCESS
                &&& final(self).spec_mode_data().CursorColumn == Column
                &&& final(self).spec_mode_data().CursorRow == Row
                &&& final(self).spec_screen() == old(self).spec_screen()
            },
            !(Column < old(self).spec_current_geometry().0 && Row < old(
                self,
            ).spec_current_geometry().1) ==> {
                &&& r == EFI_UNSUPPORTED
                &&& *final(self) == *old(self)
            },
            final(self).spec_modes() == old(self).spec_modes(),
            final(self).spec_unrenderable() == old(self).spec_unrenderable(),
            final(self).spec_mode_data().Mode == old(self).spec_mode_data().Mode,
            final(self).spec_mode_data().MaxMode == old(self).spec_mode_data().MaxMode,
            final(self).spec_mode_data().Attribute == old(self).spec_mode_data().Attribute,
            final(self).spec_mode_data().CursorVisible == old(self).spec_mode_data().CursorVisible,
    {
        let (cols, rows) = self.current_geometry();
        if Column < cols && Row < rows {
            self.Mode.CursorColumn = Column as INT32;
            self.Mode.CursorRow = Row as INT32;
            EFI_SUCCESS
        } else {
            EFI_UNSUPPORTED
        }
    }

    /// Makes the cursor visible or invisible. The flag is a raw specification
    /// boolean byte and is stored as given.
    pub fn EnableCursor(&mut self, Visible: BOOLEAN) -> (r: EFI_STATUS)
        requires
            old(self).wf(),
        ensures
            final(self).wf(),
            r == EFI_SUCCESS,
            final(self).spec_mode_data().CursorVisible == Visible,
            final(self).spec_modes() == old(self).spec_modes(),
            final(self).spec_unrenderable() == old(self).spec_unrenderable(),
            final(self).spec_screen() == old(self).spec_screen(),
            final(self).spec_mode_data().Mode == old(self).spec_mode_data().Mode,
            final(self).spec_mode_data().MaxMode == old(self).spec_mode_data().MaxMode,
            final(self).spec_mode_data().Attribute == old(self).spec_mode_data().Attribute,
            final(self).spec_mode_data().CursorColumn == old(self).spec_mode_data().CursorColumn,
            final(self).spec_mode_data().CursorRow == old(self).spec_mode_data().CursorRow,
    {
        self.Mode.CursorVisible = Visible;
        EFI_SUCCESS
    }
}

pub const BOXDRAW_HORIZONTAL: CHAR16 = 0x2500;

pub const BOXDRAW_VERTICAL: CHAR16 = 0x2502;

pub const BOXDRAW_DOWN_RIGHT: CHAR16 = 0x250C;

pub const BOXDRAW_DOWN_LEFT: CHAR16 = 0x2510;

pub const BOXDRAW_UP_RIGHT: CHAR16 = 0x2514;

pub const BOXDRAW_UP_LEFT: CHAR16 = 0x2518;

pub const BOXDRAW_VERTICAL_RIGHT: CHAR16 = 0x251C;

pub const BOXDRAW_VERTICAL_LEFT: CHAR16 = 0x2524;

pub const BOXDRAW_DOWN_HORIZONTAL: CHAR16 = 0x252C;

pub const BOXDRAW_UP_HORIZONTAL: CHAR16 = 0x2534;

pub const BOXDRAW_VERTICAL_HORIZONTAL: CHAR16 = 0x253C;

pub const BOXDRAW_DOUBLE_HORIZONTAL: CHAR16 = 0x2550;

pub const BOXDRAW_DOUBLE_VERTICAL: CHAR16 = 0x2551;

pub const BOXDRAW_DOWN_RIGHT_DOUBLE: CHAR16 = 0x2552;

pub const BOXDRAW_DOWN_DOUBLE_RIGHT: CHAR16 = 0x2553;

pub const BOXDRAW_DOUBLE_DOWN_RIGHT: CHAR16 = 0x2554;

pub const BOXDRAW_DOWN_LEFT_DOUBLE: CHAR16 = 0x2555;

pub const BOXDRAW_DOWN_DOUBLE_LEFT: CHAR16 = 0x2556;

pub const BOXDRAW_DOUBLE_DOWN_LEFT: CHAR16 = 0x2557;

pub const BOXDRAW_UP_RIGHT_DOUBLE: CHAR16 = 0x2558;

pub const BOXDRAW_UP_DOUBLE_RIGHT: CHAR16 = 0x2559;

pub const BOXDRAW_DOUBLE_UP_RIGHT: CHAR16 = 0x255A;

pub const BOXDRAW_UP_LEFT_DOUBLE: CHAR16 = 0x255B;

pub const BOXDRAW_UP_DOUBLE_LEFT: CHAR16 = 0x255C;

pub const BOXDRAW_DOUBLE_UP_LEFT: CHAR16 = 0x255D;

pub const BOXDRAW_VERTICAL_RIGHT_DOUBLE: CHAR16 = 0x255E;

pub const BOXDRAW_VERTICAL_DOUBLE_RIGHT: CHAR16 = 0x255F;

pub const BOXDRAW_DOUBLE_VERTICAL_RIGHT: CHAR16 = 0x2560;

pub const BOXDRAW_VERTICAL_LEFT_DOUBLE: CHAR16 = 0x2561;

pub const BOXDRAW_VERTICAL_DOUBLE_LEFT: CHAR16 = 0x2562;

pub const BOXDRAW_DOUBLE_VERTICAL_LEFT: CHAR16 = 0x2563;

pub const BOXDRAW_DOWN_HORIZONTAL_DOUBLE: CHAR16 = 0x2564;

pub const BOXDRAW_DOWN_DOUBLE_HORIZONTAL: CHAR16 = 0x2565;

pub const BOXDRAW_DOUBLE_DOWN_HORIZONTAL: CHAR16 = 0x2566;

pub const BOXDRAW_UP_HORIZONTAL_DOUBLE: CHAR16 = 0x2567;

pub const BOXDRAW_UP_DOUBLE_HORIZONTAL: CHAR16 = 0x2568;

pub const BOXDRAW_DOUBLE_UP_HORIZONTAL: CHAR16 = 0x2569;

pub const BOXDRAW_VERTICAL_HORIZONTAL_DOUBLE: CHAR16 = 0x256A;

pub const BOXDRAW_VERTICAL_DOUBLE_HORIZONTAL: CHAR16 = 0x256B;

pub const BOXDRAW_DOUBLE_VERTICAL_HORIZONTAL: CHAR16 = 0x256C;

pub const BLOCKELEMENT_FULL_BLOCK: CHAR16 = 0x2588;

pub const BLOCKELEMENT_LIGHT_SHADE: CHAR16 = 0x2591;

pub const GEOMETRICSHAPE_UP_TRIANGLE: CHAR16 = 0x25B2;

pub const GEOMETRICSHAPE_RIGHT_TRIANGLE: CHAR16 = 0x25BA;

pub const GEOMETRICSHAPE_DOWN_TRIANGLE: CHAR16 = 0x25BC;

pub const GEOMETRICSHAPE_LEFT_TRIANGLE: CHAR16 = 0x25C4;

pub const ARROW_UP: CHAR16 = 0x2191;

pub const ARROW_DOWN: CHAR16 = 0x2193;

pub const EFI_BLACK: UINTN = 0x00;

pub const EFI_BLUE: UINTN = 0x01;

pub const EFI_GREEN: UINTN = 0x02;

pub const EFI_CYAN: UINTN = 0x03;

pub const EFI_RED: UINTN = 0x04;

pub const EFI_MAGENTA: UINTN = 0x05;

pub const EFI_BROWN: UINTN = 0x06;

pub const EFI_LIGHTGRAY: UINTN = 0x07;

pub const EFI_BRIGHT: UINTN = 0x08;

pub const EFI_DARKGRAY: UINTN = 0x08;

pub const EFI_LIGHTBLUE: UINTN = 0x09;

pub const EFI_LIGHTGREEN: UINTN = 0x0A;

pub const EFI_LIGHTCYAN: UINTN = 0x0B;

pub const EFI_LIGHTRED: UINTN = 0x0C;

pub const EFI_LIGHTMAGENTA: UINTN = 0x0D;

pub const EFI_YELLOW: UINTN = 0x0E;

pub const EFI_WHITE: UINTN = 0x0F;

pub const EFI_BACKGROUND_BLACK: UINTN = 0x00;

pub const EFI_BACKGROUND_BLUE: UINTN = 0x10;

pub const EFI_BACKGROUND_GREEN: UINTN = 0x20;

pub const EFI_BACKGROUND_CYAN: UINTN = 0x30;

pub const EFI_BACKGROUND_RED: UINTN = 0x40;

pub const EFI_BACKGROUND_MAGENTA: UINTN = 0x50;

pub const EFI_BACKGROUND_BROWN: UINTN = 0x60;

pub const EFI_BACKGROUND_LIGHTGRAY: UINTN = 0x70;

/// Field sizes and alignments of the protocol's function-pointer table on a
/// 64-bit target, in declaration order: Reset, OutputString, TestString,
/// QueryMode, SetMode, SetAttribute, ClearScreen, SetCursorPosition,
/// EnableCursor, Mode.
pub open spec fn spec_simple_text_output_fields() -> Seq<(int, int)> {
    seq![
        (8int, 8int),
        (8int, 8int),
        (8int, 8int),
        (8int, 8int),
        (8int, 8int),
        (8int, 8int),
        (8int, 8int),
        (8int, 8int),
        (8int, 8int),
        (8int, 8int),
    ]
}

/// Field sizes and alignments of [`SIMPLE_TEXT_OUTPUT_MODE`], in declaration
/// order: MaxMode, Mode, Attribute, CursorColumn, CursorRow, CursorVisible.
pub open spec fn spec_output_mode_fields() -> Seq<(int, int)> {
    seq![(4int, 4int), (4int, 4int), (4int, 4int), (4int, 4int), (4int, 4int), (1int, 1int)]
}

/// The protocol table and the mode data lie out as documented: ten
/// consecutive 8-byte pointers, 80 bytes in all; and the mode data as five
/// consecutive 4-byte words with the visibility byte at 20, padded to 24
/// bytes.
pub proof fn lemma_simple_text_output_layout()
    ensures
        spec_fields_bounded(spec_simple_text_output_fields()),
        spec_field_offset(spec_simple_text_output_fields(), 0) == 0,
        spec_field_offset(spec_simple_text_output_fields(), 1) == 8,
        spec_field_offset(spec_simple_text_output_fields(), 2) == 16,
        spec_field_offset(spec_simple_text_output_fields(), 3) == 24,
        spec_field_offset(spec_simple_text_output_fields(), 4) == 32,
        spec_field_offset(spec_simple_text_output_fields(), 5) == 40,
        spec_field_offset(spec_simple_text_output_fields(), 6) == 48,
        spec_field_offset(spec_simple_text_output_fields(), 7) == 56,
        spec_field_offset(spec_simple_text_output_fields(), 8) == 64,
        spec_field_offset(spec_simple_text_output_fields(), 9) == 72,
        spec_struct_size(spec_simple_text_output_fields(), 8) == 80,
        spec_fields_bounded(spec_output_mode_fields()),
        spec_field_offset(spec_output_mode_fields(), 0) == 0,
        spec_field_offset(spec_output_mode_fields(), 1) == 4,
        spec_field_offset(spec_output_mode_fields(), 2) == 8,
        spec_field_offset(spec_output_mode_fields(), 3) == 12,
        spec_field_offset(spec_output_mode_fields(), 4) == 16,
        spec_field_offset(spec_output_mode_fields(), 5) == 20,
        spec_struct_size(spec_output_mode_fields(), 4) == 24,
{
    let fields = spec_simple_text_output_fields();
    assert(fields[0] == (8int, 8int));
    assert(fields[1] == (8int, 8int));
    assert(fields[2] == (8int, 8int));
    assert(fields[3] == (8int, 8int));
    assert(fields[4] == (8int, 8int));
    assert(fields[5] == (8int, 8int));
    assert(fields[6] == (8int, 8int));
    assert(fields[7] == (8int, 8int));
    assert(fields[8] == (8int, 8int));
    assert(fields[9] == (8int, 8int));
    assert(spec_field_offset(fields, 0) == 0);
    assert(spec_field_offset(fields, 1) == 8);
    assert(spec_field_offset(fields, 2) == 16);
    assert(spec_field_offset(fields, 3) == 24);
    assert(spec_field_offset(fields, 4) == 32);
    assert(spec_field_offset(fields, 5) == 40);
    assert(spec_field_offset(fields, 6) == 48);
    assert(spec_field_offset(fields, 7) == 56);
    assert(spec_field_offset(fields, 8) == 64);
    assert(spec_field_offset(fields, 9) == 72);
    let mode_fields = spec_output_mode_fields();
    assert(mode_fields[0] == (4int, 4int));
    assert(mode_fields[1] == (4int, 4int));
    assert(mode_fields[2] == (4int, 4int));
    assert(mode_fields[3] == (4int, 4int));
    assert(mode_fields[4] == (4int, 4int));
    assert(mode_fields[5] == (1int, 1int));
    assert(spec_field_offset(mode_fields, 0) == 0);
    assert(spec_field_offset(mode_fields, 1) == 4);
    assert(spec_field_offset(mode_fields, 2) == 8);
    assert(spec_field_offset(mode_fields, 3) == 12);
    assert(spec_field_offset(mode_fields, 4) == 16);
    assert(spec_field_offset(mode_fields, 5) == 20);
}

/// The protocol table's field descriptors, for computing its layout at run
/// time.
pub fn simple_text_output_field_descs() -> (r: Vec<FieldDesc>)
    ensures
        spec_fields_of(r@) == spec_simple_text_output_fields(),
{
    let mut v: Vec<FieldDesc> = Vec::new();
    let mut i: usize = 0;
    while i < 10
        invariant
            i <= 10,
            v@.len() == i,
            forall|j: int| 0 <= j < i ==> v@[j] == (FieldDesc { size: 8, align: 8 }),
        decreases 10 - i,
    {
        v.push(FieldDesc { size: 8, align: 8 });
        i = i + 1;
    }
    proof {
        assert(spec_fields_of(v@) =~= spec_simple_text_output_fields());
    }
    v
}

/// The mode data's field descriptors, for computing its layout at run time.
pub fn output_mode_field_descs() -> (r: Vec<FieldDesc>)
    ensures
        spec_fields_of(r@) == spec_output_mode_fields(),
{
    let mut v: Vec<FieldDesc> = Vec::new();
    v.push(FieldDesc { size: 4, align: 4 });
    v.push(FieldDesc { size: 4, align: 4 });
    v.push(FieldDesc { size: 4, align: 4 });
    v.push(FieldDesc { size: 4, align: 4 });
    v.push(FieldDesc { size: 4, align: 4 });
    v.push(FieldDesc { size: 1, align: 1 });
    proof {
        assert(spec_fields_of(v@) =~= spec_output_mode_fields());
    }
    v
}

} // verus!
