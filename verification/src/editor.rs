//! The editor core: cursor position, viewport offset, quit flag, and the
//! decision behind every keypress and redraw.
//!
//! Terminal I/O stays outside. A caller reads one key event, hands it to
//! [`Editor::process_keypress`] together with the current screen dimensions,
//! and writes the lines computed by [`Editor::refresh_screen`] back out.

use vstd::prelude::*;
use crate::document::{Document, Row, row_width};
use crate::text::{clip, decimal, spaces, fmt_usize, pad_spaces, truncate_chars};
use crate::text::lemma_decimal_len_bounded;

verus! {

/// How long a status message stays visible, in milliseconds.
pub const MESSAGE_LIFETIME_MS: u64 = 5000;

/// A zero-based (column, row) coordinate, into the document or the screen.
#[derive(Clone, Copy, PartialEq, Eq, Structural, Debug)]
pub struct Position {
    pub x: usize,
    pub y: usize,
}

impl Default for Position {
    /// The origin, `(0, 0)`.
    fn default() -> (r: Self)
        ensures
            r.x == 0 && r.y == 0,
    {
        Position { x: 0, y: 0 }
    }
}

/// The screen dimensions, in character cells.
#[derive(Clone, Copy, PartialEq, Eq, Structural, Debug)]
pub struct Size {
    pub width: usize,
    pub height: usize,
}

/// One decoded key event.
#[derive(Clone, Copy, PartialEq, Eq, Structural, Debug)]
pub enum Key {
    Up,
    Down,
    Left,
    Right,
    Home,
    End,
    PageUp,
    PageDown,
    Ctrl(char),
    Char(char),
    Other,
}

/// A transient one-line notice and the clock reading at which it was posted.
pub struct StatusMessage {
    pub text: String,
    pub time: u64,
}

impl StatusMessage {
    /// Stamps `message` with the caller's clock reading `now_ms`.
    pub fn from(message: String, now_ms: u64) -> (r: StatusMessage)
        ensures
            r.text == message,
            r.time == now_ms,
    {
        StatusMessage { text: message, time: now_ms }
    }
}

/// `a + b` clamped to the `usize` range, as `usize::saturating_add` computes it.
pub open spec fn usat_add(a: int, b: int) -> int {
    if a + b <= usize::MAX as int {
        a + b
    } else {
        usize::MAX as int
    }
}

/// `a - b` clamped below at zero, as `usize::saturating_sub` computes it.
pub open spec fn usat_sub(a: int, b: int) -> int {
    if a - b >= 0 {
        a - b
    } else {
        0
    }
}

/// The viewport offset for one axis after scrolling: unchanged when the
/// cursor `c` already lies within `[off, off + dim)`, otherwise moved the
/// minimal amount that brings `c` to the near edge of the window.
pub open spec fn scroll_axis(c: int, off: int, dim: int) -> int {
    if c < off {
        c
    } else if c >= usat_add(off, dim) {
        usat_add(usat_sub(c, dim), 1)
    } else {
        off
    }
}

/// After scrolling, the cursor lies inside the window on that axis.
pub proof fn lemma_scroll_axis_contains(c: int, off: int, dim: int)
    requires
        0 <= c <= usize::MAX,
        0 <= off <= usize::MAX,
        1 <= dim <= usize::MAX,
    ensures
        scroll_axis(c, off, dim) <= c < scroll_axis(c, off, dim) + dim,
{
}

/// Scrolling twice with the same cursor and dimensions moves the offset no
/// further than scrolling once: `scroll_axis` is idempotent on each axis.
pub proof fn lemma_scroll_axis_idempotent(c: int, off: int, dim: int)
    requires
        0 <= c <= usize::MAX,
        0 <= off <= usize::MAX,
        1 <= dim <= usize::MAX,
    ensures
        scroll_axis(c, scroll_axis(c, off, dim), dim) == scroll_axis(c, off, dim),
{
    lemma_scroll_axis_contains(c, off, dim);
}

/// Whether `key` is one of the cursor-movement keys.
pub open spec fn is_move_key(key: Key) -> bool {
    match key {
        Key::Up | Key::Down | Key::Left | Key::Right => true,
        Key::Home | Key::End | Key::PageUp | Key::PageDown => true,
        _ => false,
    }
}

/// Where one movement key sends the cursor, before the horizontal clamp.
/// `term_h` is the screen height, the page size for `PageUp`/`PageDown`.
pub open spec fn spec_step(key: Key, x: int, y: int, doc: Seq<Seq<char>>, term_h: int) -> (
    int,
    int,
) {
    let dl = doc.len() as int;
    let w = row_width(doc, y) as int;
    match key {
        Key::Up => (x, if y > 0 { y - 1 } else { 0 }),
        Key::Down => (x, if y < dl { y + 1 } else { y }),
        Key::Right => if x < w {
            (x + 1, y)
        } else if y < dl {
            (0, y + 1)
        } else {
            (x, y)
        },
        Key::Left => if x > 0 {
            (x - 1, y)
        } else if y > 0 {
            (row_width(doc, y - 1) as int, y - 1)
        } else {
            (x, y)
        },
        Key::PageUp => (x, if y > term_h { y - term_h } else { 0 }),
        Key::PageDown => (x, if y + term_h < dl { y + term_h } else { dl }),
        Key::Home => (0, y),
        Key::End => (w, y),
        _ => (x, y),
    }
}

/// Where one movement key sends the cursor: the raw step, with the column
/// then clamped to the width of the row the cursor lands on.
pub open spec fn spec_move(key: Key, x: int, y: int, doc: Seq<Seq<char>>, term_h: int) -> (
    int,
    int,
) {
    let (x1, y1) = spec_step(key, x, y, doc, term_h);
    (vstd::math::min(x1, row_width(doc, y1) as int), y1)
}

/// The cursor position `process_keypress` leaves: moved for a movement key,
/// untouched for every other key.
pub open spec fn spec_dispatch(key: Key, x: int, y: int, doc: Seq<Seq<char>>, term_h: int) -> (
    int,
    int,
) {
    if is_move_key(key) {
        spec_move(key, x, y, doc, term_h)
    } else {
        (x, y)
    }
}

/// The quit flag, cursor and viewport offset left by dispatching `keys` in
/// order, each key through the per-key step of `process_keypress` (dispatch,
/// then scroll on both axes), stopping as soon as the quit flag is up: a
/// run entered quitting changes nothing, and events after the quit key are
/// never looked at.
pub open spec fn spec_run(
    keys: Seq<Key>,
    quit: bool,
    x: int,
    y: int,
    ox: int,
    oy: int,
    doc: Seq<Seq<char>>,
    size: Size,
) -> (bool, int, int, int, int)
    decreases keys.len(),
{
    if keys.len() == 0 || quit {
        (quit, x, y, ox, oy)
    } else {
        let key = keys[0];
        let quit2 = quit || key == Key::Ctrl('q');
        let (x2, y2) = spec_dispatch(key, x, y, doc, size.height as int);
        let ox2 = scroll_axis(x2, ox, size.width as int);
        let oy2 = scroll_axis(y2, oy, size.height as int);
        spec_run(keys.skip(1), quit2, x2, y2, ox2, oy2, doc, size)
    }
}

/// The editor state: quit flag, cursor, viewport offset, the document being
/// viewed, and the transient status message.
pub struct Editor {
    pub should_quit: bool,
    pub cursor_pos: Position,
    pub offset: Position,
    pub document: Document,
    pub status_message: StatusMessage,
}

impl Editor {
    /// The cursor invariant: the row index may run one past the last line
    /// (the past-end sentinel), and the column never passes the end of the
    /// row it sits on (zero where no such row exists).
    pub open spec fn wf(&self) -> bool {
        &&& self.cursor_pos.y <= self.document@.len()
        &&& self.cursor_pos.x <= row_width(self.document@, self.cursor_pos.y as int)
    }

    /// A fresh editor over `document`: not quitting, cursor and offset at
    /// the origin, showing `status_message`.
    pub fn new(document: Document, status_message: StatusMessage) -> (r: Editor)
        ensures
            r.wf(),
            !r.should_quit,
            r.cursor_pos == (Position { x: 0, y: 0 }),
            r.offset == (Position { x: 0, y: 0 }),
            r.document == document,
            r.status_message == status_message,
    {
        Editor {
            should_quit: false,
            cursor_pos: Position { x: 0, y: 0 },
            offset: Position { x: 0, y: 0 },
            document,
            status_message,
        }
    }

    /// Moves the viewport the minimal amount that keeps the cursor on
    /// screen, independently per axis; nothing else changes.
    pub fn scroll(&mut self, size: Size)
        ensures
            final(self).offset.x == scroll_axis(
                old(self).cursor_pos.x as int,
                old(self).offset.x as int,
                size.width as int,
            ),
            final(self).offset.y == scroll_axis(
                old(self).cursor_pos.y as int,
                old(self).offset.y as int,
                size.height as int,
            ),
            final(self).cursor_pos == old(self).cursor_pos,
            final(self).document == old(self).document,
            final(self).should_quit == old(self).should_quit,
            final(self).status_message == old(self).status_message,
            size.width >= 1 ==> final(self).offset.x <= final(self).cursor_pos.x < final(self).offset.x + size.width,
            size.height >= 1 ==> final(self).offset.y <= final(self).cursor_pos.y < final(self).offset.y + size.height,
    {
        let x = self.cursor_pos.x;
        let y = self.cursor_pos.y;
        let width = size.width;
        let height = size.height;

        if y < self.offset.y {
            self.offset.y = y;
        } else if y >= self.offset.y.saturating_add(height) {
            self.offset.y = y.saturating_sub(height).saturating_add(1);
        }

        if x < self.offset.x {
            self.offset.x = x;
        } else if x >= self.offset.x.saturating_add(width) {
            self.offset.x = x.saturating_sub(width).saturating_add(1);
        }

        proof {
            if size.width >= 1 {
                lemma_scroll_axis_contains(x as int, old(self).offset.x as int, size.width as int);
            }
            if size.height >= 1 {
                lemma_scroll_axis_contains(y as int, old(self).offset.y as int, size.height as int);
            }
        }
    }

    /// Applies one movement key to the cursor: the step from the movement
    /// table, with the column then clamped to the row the cursor lands on.
    /// The clamp runs against the new row, so a vertical move onto a shorter
    /// line pulls the column in.
    pub fn move_cursor(&mut self, key: Key, size: Size)
        requires
            old(self).wf(),
        ensures
            final(self).wf(),
            (final(self).cursor_pos.x as int, final(self).cursor_pos.y as int) == spec_move(
                key,
                old(self).cursor_pos.x as int,
                old(self).cursor_pos.y as int,
                old(self).document@,
                size.height as int,
            ),
            final(self).offset == old(self).offset,
            final(self).document == old(self).document,
            final(self).should_quit == old(self).should_quit,
            final(self).status_message == old(self).status_message,
    {
        let terminal_height = size.height;
        let mut x = self.cursor_pos.x;
        let mut y = self.cursor_pos.y;
        let height = self.document.len();
        let width = if let Some(row) = self.document.row(y) {
            row.len()
        } else {
            0
        };

        match key {
            Key::Up => {
                y = y.saturating_sub(1);
            },
            Key::Down => {
                if y < height {
                    y = y.saturating_add(1);
                }
            },
            Key::Right => {
                if x < width {
                    x = x + 1;
                } else if y < height {
                    y = y + 1;
                    x = 0;
                }
            },
            Key::Left => {
                if x > 0 {
                    x = x - 1;
                } else if y > 0 {
                    y = y - 1;
                    x = if let Some(row) = self.document.row(y) {
                        row.len()
                    } else {
                        0
                    };
                }
            },
            Key::PageUp => {
                y = if y > terminal_height {
                    y.saturating_sub(terminal_height)
                } else {
                    0
                };
            },
            Key::PageDown => {
                y = if y.saturating_add(terminal_height) < height {
                    y.saturating_add(terminal_height)
                } else {
                    height
                };
            },
            Key::Home => {
                x = 0;
            },
            Key::End => {
                x = width;
            },
            _ => {},
        }

        let new_width = if let Some(row) = self.document.row(y) {
            row.len()
        } else {
            0
        };
        if x > new_width {
            x = new_width;
        }

        self.cursor_pos = Position { x, y };
    }

    /// Dispatches one key event: the quit key raises the quit flag, a
    /// movement key moves the cursor, anything else is a no-op; the viewport
    /// is then re-scrolled whichever it was.
    pub fn process_keypress(&mut self, key: Key, size: Size)
        requires
            old(self).wf(),
        ensures
            final(self).wf(),
            final(self).should_quit == (old(self).should_quit || key == Key::Ctrl('q')),
            final(self).document == old(self).document,
            final(self).status_message == old(self).status_message,
            (final(self).cursor_pos.x as int, final(self).cursor_pos.y as int) == spec_dispatch(
                key,
                old(self).cursor_pos.x as int,
                old(self).cursor_pos.y as int,
                old(self).document@,
                size.height as int,
            ),
            final(self).offset.x == scroll_axis(
                final(self).cursor_pos.x as int,
                old(self).offset.x as int,
                size.width as int,
            ),
            final(self).offset.y == scroll_axis(
                final(self).cursor_pos.y as int,
                old(self).offset.y as int,
                size.height as int,
            ),
            size.width >= 1 ==> final(self).offset.x <= final(self).cursor_pos.x < final(self).offset.x + size.width,
            size.height >= 1 ==> final(self).offset.y <= final(self).cursor_pos.y < final(self).offset.y + size.height,
    {
        match key {
            Key::Ctrl(c) => {
                if c == 'q' {
                    self.should_quit = true;
                }
            },
            Key::Up | Key::Down | Key::Right | Key::Left | Key::PageUp | Key::PageDown | Key::End
                | Key::Home => {
                self.move_cursor(key, size);
            },
            _ => {},
        }
        self.scroll(size);
    }

    /// Drives the editor over a sequence of key events, as the interactive
    /// loop would feed them one at a time: events are dispatched in order
    /// until the quit flag is raised, and any events after the quit key are
    /// never looked at. The final quit flag, cursor and offset are exactly
    /// [`spec_run`] folded over the events.
    pub fn run(&mut self, keys: &Vec<Key>, size: Size)
        requires
            old(self).wf(),
        ensures
            final(self).wf(),
            final(self).document == old(self).document,
            final(self).status_message == old(self).status_message,
            final(self).should_quit == (old(self).should_quit || keys@.contains(Key::Ctrl('q'))),
            ({
                let (q, x, y, ox, oy) = spec_run(
                    keys@,
                    old(self).should_quit,
                    old(self).cursor_pos.x as int,
                    old(self).cursor_pos.y as int,
                    old(self).offset.x as int,
                    old(self).offset.y as int,
                    old(self).document@,
                    size,
                );
                &&& final(self).should_quit == q
                &&& final(self).cursor_pos.x == x
                &&& final(self).cursor_pos.y == y
                &&& final(self).offset.x == ox
                &&& final(self).offset.y == oy
            }),
    {
        let ghost initial_quit = self.should_quit;
        let ghost full_run = spec_run(
            keys@,
            old(self).should_quit,
            old(self).cursor_pos.x as int,
            old(self).cursor_pos.y as int,
            old(self).offset.x as int,
            old(self).offset.y as int,
            old(self).document@,
            size,
        );
        let mut i: usize = 0;
        proof {
            assert(keys@.skip(0) =~= keys@);
        }
        while i < keys.len() && !self.should_quit
            invariant
                self.wf(),
                i <= keys@.len(),
                self.document == old(self).document,
                self.status_message == old(self).status_message,
                self.should_quit == (initial_quit || keys@.take(i as int).contains(
                    Key::Ctrl('q'),
                )),
                spec_run(
                    keys@.skip(i as int),
                    self.should_quit,
                    self.cursor_pos.x as int,
                    self.cursor_pos.y as int,
                    self.offset.x as int,
                    self.offset.y as int,
                    old(self).document@,
                    size,
                ) == full_run,
            decreases keys@.len() - i,
        {
            let key = keys[i];
            let ghost rest = keys@.skip(i as int);
            self.process_keypress(key, size);
            proof {
                assert(rest.len() > 0);
                assert(rest[0] == keys@[i as int]);
                assert(rest.skip(1) =~= keys@.skip(i as int + 1));
                assert(keys@.take(i as int + 1) =~= keys@.take(i as int).push(keys@[i as int]));
                if keys@.take(i as int).contains(Key::Ctrl('q')) {
                    let j = choose|j: int|
                        0 <= j < i && keys@.take(i as int)[j] == Key::Ctrl('q');
                    assert(keys@.take(i as int + 1)[j] == Key::Ctrl('q'));
                }
                if keys@[i as int] == Key::Ctrl('q') {
                    assert(keys@.take(i as int + 1)[i as int] == Key::Ctrl('q'));
                }
                if keys@.take(i as int + 1).contains(Key::Ctrl('q')) {
                    let j = choose|j: int|
                        0 <= j < i + 1 && (#[trigger] keys@.take(i as int + 1)[j]) == Key::Ctrl(
                            'q',
                        );
                    if j < i {
                        assert(keys@.take(i as int)[j] == Key::Ctrl('q'));
                    } else {
                        assert(keys@[i as int] == Key::Ctrl('q'));
                    }
                }
            }
            i = i + 1;
        }
        proof {
            if self.should_quit && !initial_quit {
                let j = choose|j: int|
                    0 <= j < i && keys@.take(i as int)[j] == Key::Ctrl('q');
                assert(keys@[j] == Key::Ctrl('q'));
            }
            if !self.should_quit {
                assert(i == keys@.len());
                assert(keys@.take(i as int) =~= keys@);
                assert(keys@.skip(i as int).len() == 0);
            }
            assert(full_run == (
                self.should_quit,
                self.cursor_pos.x as int,
                self.cursor_pos.y as int,
                self.offset.x as int,
                self.offset.y as int,
            ));
        }
    }
}

/// The status text the editor starts with: an error line naming the file
/// whose open failed, otherwise the default help line.
pub fn initial_status(file_arg: &Option<String>, open_failed: bool) -> (r: String)
    ensures
        match file_arg {
            Some(name) => r@ == if open_failed {
                "ERR: could not open file: "@ + name@
            } else {
                "HELP: Ctrl-Q = Quit"@
            },
            None => r@ == "HELP: Ctrl-Q = Quit"@,
        },
{
    match file_arg {
        Some(name) => {
            if open_failed {
                let mut s = String::from_str("ERR: could not open file: ");
                s.append(name.as_str());
                s
            } else {
                String::from_str("HELP: Ctrl-Q = Quit")
            }
        },
        None => String::from_str("HELP: Ctrl-Q = Quit"),
    }
}

/// Scrolling is idempotent: with the cursor and dimensions unchanged, a
/// second scroll leaves the viewport offset where the first put it.
pub proof fn lemma_scroll_idempotent(cursor: Position, offset: Position, size: Size)
    requires
        size.width >= 1,
        size.height >= 1,
    ensures
        ({
            let ox = scroll_axis(cursor.x as int, offset.x as int, size.width as int);
            let oy = scroll_axis(cursor.y as int, offset.y as int, size.height as int);
            &&& scroll_axis(cursor.x as int, ox, size.width as int) == ox
            &&& scroll_axis(cursor.y as int, oy, size.height as int) == oy
        }),
{
    lemma_scroll_axis_idempotent(cursor.x as int, offset.x as int, size.width as int);
    lemma_scroll_axis_idempotent(cursor.y as int, offset.y as int, size.height as int);
}

/// The banner of the welcome message, version included. The trailing
/// carriage return is part of the composed text, as it is drawn.
pub open spec fn welcome_banner() -> Seq<char> {
    "red | v0.1.0\r"@
}

/// The welcome line for a screen `width` columns wide: a leading tilde,
/// spaces that roughly center the banner, the banner itself, the whole
/// clipped to the width.
pub open spec fn spec_welcome(width: nat) -> Seq<char> {
    let pad = usat_sub(width as int, welcome_banner().len() as int) / 2;
    let lead = usat_sub(pad, 1) as nat;
    clip(seq!['~'] + spaces(lead) + welcome_banner(), width)
}

/// The shape of the welcome line on any screen with at least one column:
/// it never overflows the width, it starts with the tilde, and whenever the
/// composed text fits it is exactly the tilde, then the centering spaces
/// (half the spare width, less one for the tilde), then the banner.
pub proof fn lemma_welcome_shape(width: nat)
    requires
        width >= 1,
    ensures
        spec_welcome(width).len() <= width,
        spec_welcome(width).len() >= 1,
        spec_welcome(width)[0] == '~',
        ({
            let lead = usat_sub(usat_sub(width as int, welcome_banner().len() as int) / 2, 1) as nat;
            1 + lead + welcome_banner().len() <= width ==> spec_welcome(width) == seq!['~']
                + spaces(lead) + welcome_banner()
        }),
{
    let lead = usat_sub(usat_sub(width as int, welcome_banner().len() as int) / 2, 1) as nat;
    let full = seq!['~'] + spaces(lead) + welcome_banner();
    assert(full[0] == '~');
    if full.len() > width {
        assert(spec_welcome(width) =~= full.subrange(0, width as int));
    }
}

/// The characters of `line` that fall in a window starting at column
/// `startx` and `width` columns wide; columns past the end of the line
/// render as nothing.
pub open spec fn spec_row_slice(line: Seq<char>, startx: int, width: int) -> Seq<char> {
    let e = vstd::math::min(usat_add(startx, width), line.len() as int);
    let s = vstd::math::min(startx, e);
    line.subrange(s, e)
}

/// Whether the body-row renderer puts the welcome message on screen row `r`.
pub open spec fn welcome_shown(doc: Seq<Seq<char>>, offset_y: int, height: int, r: int) -> bool {
    let idx = usat_add(offset_y, r);
    &&& !(idx < doc.len())
    &&& doc.len() == 0
    &&& r == height / 3
}

/// The welcome message appears on a screen row exactly when the document is
/// empty and that row's index equals a third of the screen height.
pub proof fn lemma_welcome_shown_iff(doc: Seq<Seq<char>>, offset_y: int, height: int, r: int)
    requires
        0 <= offset_y,
        0 <= r,
    ensures
        welcome_shown(doc, offset_y, height, r) <==> (doc.len() == 0 && r == height / 3),
{
}

/// What screen row `r` displays: the visible slice of the document line
/// under it, the welcome message on an empty document's designated row, or
/// a bare tilde placeholder.
pub open spec fn spec_screen_row(doc: Seq<Seq<char>>, offset: Position, size: Size, r: int) -> Seq<
    char,
> {
    let idx = usat_add(offset.y as int, r);
    if 0 <= idx < doc.len() {
        spec_row_slice(doc[idx], offset.x as int, size.width as int)
    } else if welcome_shown(doc, offset.y as int, size.height as int, r) {
        spec_welcome(size.width as nat)
    } else {
        "~"@
    }
}

/// The file-name label of the status bar: the name clipped to twenty
/// characters, or a placeholder for an unnamed document.
pub open spec fn spec_file_label(file_name: Option<String>) -> Seq<char> {
    match file_name {
        Some(name) => clip(name@, 20),
        None => "[no name]"@,
    }
}

/// The status-bar line: file label and line count on the left, the
/// one-based cursor line over the line count on the right, the two pushed
/// apart with spaces and the whole cut to exactly `width` characters.
pub open spec fn spec_status_line(
    file_name: Option<String>,
    lines: nat,
    cursor_y: nat,
    width: nat,
) -> Seq<char> {
    let left = spec_file_label(file_name) + " - "@ + decimal(lines) + " lines"@;
    let ind = decimal(usat_add(cursor_y as int, 1) as nat) + "/"@ + decimal(lines);
    let line = if width > left.len() + ind.len() {
        left + spaces((width - left.len() - ind.len()) as nat) + ind
    } else {
        left + ind
    };
    clip(line, width)
}

/// The message-bar line: the status message clipped to the width while it
/// is fresh, blank once its lifetime has passed.
pub open spec fn spec_message_line(message: StatusMessage, now_ms: u64, width: nat) -> Seq<char> {
    if message.time <= now_ms && now_ms - message.time < MESSAGE_LIFETIME_MS {
        clip(message.text@, width)
    } else {
        Seq::<char>::empty()
    }
}

/// One computed redraw: the goodbye screen of a quitting editor, or the
/// full view with its body rows, the two bars, and where the terminal
/// cursor belongs on screen.
pub enum Screen {
    Goodbye,
    View {
        rows: Vec<String>,
        status_bar: String,
        message_bar: String,
        cursor: Position,
    },
}

impl Editor {
    /// The centered welcome line an empty document greets with.
    pub fn draw_welcome_msg(&self, size: Size) -> (r: String)
        ensures
            r@ == spec_welcome(size.width as nat),
    {
        let banner = "red | v0.1.0\r";
        let len = banner.unicode_len();
        let width = size.width;
        let pad = width.saturating_sub(len) / 2;
        let lead = pad.saturating_sub(1);
        let tilde = String::from_str("~");
        proof {
            reveal_strlit("~");
            assert(tilde@ =~= seq!['~']);
        }
        let mut msg = pad_spaces(tilde, lead);
        msg.append(banner);
        proof {
            assert(msg@ =~= seq!['~'] + spaces(lead as nat) + welcome_banner());
        }
        truncate_chars(msg.as_str(), width)
    }

    /// One visible document row: the slice of `row` that the viewport shows.
    pub fn draw_row(&self, row: &Row, size: Size) -> (r: String)
        ensures
            r@ == spec_row_slice(row@, self.offset.x as int, size.width as int),
    {
        let start = self.offset.x;
        let end = self.offset.x.saturating_add(size.width);
        row.render(start, end)
    }

    /// What screen row `row_index` displays.
    fn screen_line(&self, row_index: usize, size: Size) -> (r: String)
        ensures
            r@ == spec_screen_row(self.document@, self.offset, size, row_index as int),
    {
        let idx = self.offset.y.saturating_add(row_index);
        match self.document.row(idx) {
            Some(row) => {
                let l = self.draw_row(row, size);
                proof {
                    assert(l@ == spec_screen_row(self.document@, self.offset, size, row_index as int));
                }
                l
            },
            None => {
                if self.document.is_empty() && row_index == size.height / 3 {
                    let l = self.draw_welcome_msg(size);
                    proof {
                        assert(l@ == spec_screen_row(self.document@, self.offset, size, row_index as int));
                    }
                    l
                } else {
                    let l = String::from_str("~");
                    proof {
                        assert(l@ == spec_screen_row(self.document@, self.offset, size, row_index as int));
                    }
                    l
                }
            },
        }
    }

    /// Every body row of the screen, top to bottom.
    pub fn draw_rows(&self, size: Size) -> (r: Vec<String>)
        ensures
            r@.len() == size.height,
            forall|i: int|
                0 <= i < size.height ==> (#[trigger] r@[i])@ == spec_screen_row(
                    self.document@,
                    self.offset,
                    size,
                    i,
                ),
    {
        let mut rows: Vec<String> = Vec::new();
        let height = size.height;
        for row_index in 0..height
            invariant
                rows@.len() == row_index,
                forall|i: int|
                    0 <= i < row_index ==> (#[trigger] rows@[i])@ == spec_screen_row(
                        self.document@,
                        self.offset,
                        size,
                        i,
                    ),
        {
            let line = self.screen_line(row_index, size);
            let ghost prev = rows@;
            rows.push(line);
            proof {
                assert(rows@ =~= prev.push(line));
                assert forall|i: int|
                    0 <= i < row_index + 1 implies (#[trigger] rows@[i])@ == spec_screen_row(
                    self.document@,
                    self.offset,
                    size,
                    i,
                ) by {
                    if i < row_index {
                        assert(rows@[i] == prev[i]);
                    } else {
                        assert(rows@[i] == line);
                    }
                }
            }
        }
        rows
    }

    /// The status bar, always exactly as wide as the screen.
    pub fn draw_status_bar(&self, size: Size) -> (r: String)
        ensures
            r@ == spec_status_line(
                self.document.file_name,
                self.document@.len() as nat,
                self.cursor_pos.y as nat,
                size.width as nat,
            ),
            r@.len() == size.width,
    {
        let width = size.width;
        let file_name = if let Some(name) = &self.document.file_name {
            truncate_chars(name.as_str(), 20)
        } else {
            String::from_str("[no name]")
        };
        let lines = self.document.len();
        let lines_left = fmt_usize(lines);
        let lines_right = fmt_usize(lines);

        let mut status = file_name;
        status.append(" - ");
        status.append(lines_left.as_str());
        status.append(" lines");

        let mut indicator = fmt_usize(self.cursor_pos.y.saturating_add(1));
        indicator.append("/");
        indicator.append(lines_right.as_str());

        let ghost left = spec_file_label(self.document.file_name) + " - "@ + decimal(lines as nat)
            + " lines"@;
        let ghost ind = decimal(usat_add(self.cursor_pos.y as int, 1) as nat) + "/"@ + decimal(
            lines as nat,
        );
        proof {
            reveal_strlit("[no name]");
            reveal_strlit(" - ");
            reveal_strlit(" lines");
            reveal_strlit("/");
            lemma_decimal_len_bounded(lines as nat);
            lemma_decimal_len_bounded(usat_add(self.cursor_pos.y as int, 1) as nat);
            assert(status@ =~= left);
            assert(indicator@ =~= ind);
            assert(left.len() <= 49);
            assert(ind.len() <= 41);
        }

        let status_len = status.as_str().unicode_len();
        let ind_len = indicator.as_str().unicode_len();
        let len = status_len + ind_len;
        let mut line = status;
        if width > len {
            line = pad_spaces(line, width - len);
        }
        line.append(indicator.as_str());
        let r = truncate_chars(line.as_str(), width);
        proof {
            if width > left.len() + ind.len() {
                assert(line@ =~= left + spaces((width - left.len() - ind.len()) as nat) + ind);
            } else {
                assert(line@ =~= left + ind);
            }
        }
        r
    }

    /// The message bar: non-blank exactly while the message is fresh, the
    /// message itself is non-empty, and the screen has any width at all.
    pub fn draw_message_bar(&self, now_ms: u64, size: Size) -> (r: String)
        ensures
            r@ == spec_message_line(self.status_message, now_ms, size.width as nat),
            r@.len() > 0 <==> (self.status_message.time <= now_ms && now_ms
                - self.status_message.time < MESSAGE_LIFETIME_MS
                && self.status_message.text@.len() > 0 && size.width >= 1),
    {
        if now_ms >= self.status_message.time && now_ms - self.status_message.time
            < MESSAGE_LIFETIME_MS {
            truncate_chars(self.status_message.text.as_str(), size.width)
        } else {
            String::new()
        }
    }

    /// Computes one full redraw from the current state: the goodbye screen
    /// once the quit flag is up, otherwise every body row, both bars, and
    /// the screen-relative cursor position (the logical cursor minus the
    /// viewport offset).
    pub fn refresh_screen(&self, size: Size, now_ms: u64) -> (r: Screen)
        ensures
            self.should_quit ==> r is Goodbye,
            !self.should_quit ==> (r matches Screen::View {
                rows,
                status_bar,
                message_bar,
                cursor,
            } && rows@.len() == size.height && (forall|i: int|
                0 <= i < size.height ==> (#[trigger] rows@[i])@ == spec_screen_row(
                    self.document@,
                    self.offset,
                    size,
                    i,
                )) && status_bar@ == spec_status_line(
                self.document.file_name,
                self.document@.len() as nat,
                self.cursor_pos.y as nat,
                size.width as nat,
            ) && status_bar@.len() == size.width && message_bar@ == spec_message_line(
                self.status_message,
                now_ms,
                size.width as nat,
            ) && cursor.x == usat_sub(self.cursor_pos.x as int, self.offset.x as int) && cursor.y
                == usat_sub(self.cursor_pos.y as int, self.offset.y as int)),
    {
        if self.should_quit {
            Screen::Goodbye
        } else {
            Screen::View {
                rows: self.draw_rows(size),
                status_bar: self.draw_status_bar(size),
                message_bar: self.draw_message_bar(now_ms, size),
                cursor: Position {
                    x: self.cursor_pos.x.saturating_sub(self.offset.x),
                    y: self.cursor_pos.y.saturating_sub(self.offset.y),
                },
            }
        }
    }
}

} // verus!


