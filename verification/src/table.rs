//! Replies that are laid out as a table.

use vstd::prelude::*;
use vstd::string::*;
use colored::Color;
use crate::registry::Shared;
use crate::style::{
    holds_reset, named_code, painted, painted_as, plain, reset_seq, selects, show_all, shown_as,
    span_views, style_prefix, tint, Span, Style,
};
use crate::text::{
    chars_of, lemma_without_escapes_holds_none, strip_escapes, texts, without_escapes, CharClass,
};

verus! {

/// The text that `prettytable` prints for a table in its default format,
/// given the content of its cells row by row.
pub uninterp spec fn table_text(cells: Seq<Seq<Seq<char>>>) -> Seq<char>;

/// The content of the cells of a table, row by row.
pub open spec fn cell_texts(rows: Seq<Vec<String>>) -> Seq<Seq<Seq<char>>> {
    Seq::new(rows.len(), |i: int| texts(rows[i]@))
}

/// The styled cells of a table, row by row.
pub open spec fn row_views(rows: Seq<Vec<Span<String>>>) -> Seq<Seq<Span<Seq<char>>>> {
    Seq::new(rows.len(), |i: int| span_views(rows[i]@))
}

/// Whether a table can hold `cell`: no escape character in it is
/// followed, anywhere later, by a character beyond ASCII. The width of a
/// cell is measured with the sequences that steer a terminal taken out,
/// and the measuring gives up on a cell where such a sequence runs into
/// characters that join.
pub open spec fn table_safe(cell: Seq<char>) -> bool {
    forall|i: int, j: int|
        #![trigger cell[i], cell[j]]
        0 <= i < j < cell.len() && cell[i] == '\u{1b}' ==> cell[j] as u32 <= 0x7f
}

/// Whether a table can hold every one of `cells`.
pub open spec fn cells_safe(cells: Seq<Seq<Seq<char>>>) -> bool {
    forall|r: int, c: int|
        0 <= r < cells.len() && 0 <= c < cells[r].len() ==> table_safe(#[trigger] cells[r][c])
}

/// Whether `text` is ASCII throughout and holds no escape character.
pub open spec fn plain_ascii(text: Seq<char>) -> bool {
    forall|i: int|
        0 <= i < text.len() ==> (#[trigger] text[i]) as u32 <= 0x7f && text[i] != '\u{1b}'
}

/// Whether a table can hold the styled cell `span`, however it is
/// painted: a plain cell as `table_safe` says, any other where its text is
/// ASCII without an escape character.
pub open spec fn cell_drawable(span: Span<Seq<char>>) -> bool {
    if span.style is Plain {
        table_safe(span.text)
    } else {
        plain_ascii(span.text)
    }
}

/// Whether a table can hold every one of the styled cells of `rows`.
pub open spec fn rows_drawable(rows: Seq<Seq<Span<Seq<char>>>>) -> bool {
    forall|r: int, c: int|
        0 <= r < rows.len() && 0 <= c < rows[r].len() ==> cell_drawable(#[trigger] rows[r][c])
}

/// Builds a `prettytable::Table` with one left-aligned cell for each
/// string, row by row, and prints it with `Table::print` into a buffer.
/// The output is fixed by the cells and the crate's default format. The
/// crate measures each cell and gives up where the measure goes wrong;
/// the cells that `requires` admits are measured rightly.
#[verifier::external_body]
pub(crate) fn draw_table(rows: &Vec<Vec<String>>) -> (out: String)
    requires
        cells_safe(cell_texts(rows@)),
    ensures
        out@ == table_text(cell_texts(rows@)),
{
    let mut bytes: Vec<u8> = Vec::new();
    let _ = prettytable::Table::from(rows).print(&mut bytes);
    String::from_utf8_lossy(&bytes).into_owned()
}

/// `out` is what a table of styled cells may be shown as: the table that
/// is printed once each cell is turned into a string, the plain cells as
/// they are.
pub open spec fn draws(rows: Seq<Seq<Span<Seq<char>>>>, out: Seq<char>) -> bool {
    exists|cells: Seq<Seq<Seq<char>>>| #[trigger]
        cells_painted_as(rows, cells) && out == table_text(cells)
}

/// `cells` holds one text for each styled cell, and for a plain cell its
/// own text.
pub open spec fn cells_painted_as(
    rows: Seq<Seq<Span<Seq<char>>>>,
    cells: Seq<Seq<Seq<char>>>,
) -> bool {
    &&& cells.len() == rows.len()
    &&& forall|i: int| 0 <= i < rows.len() ==> painted_as(#[trigger] rows[i], cells[i])
}

/// A text that is ASCII throughout can stand in a table.
pub proof fn lemma_ascii_is_safe(cell: Seq<char>)
    requires
        forall|i: int| 0 <= i < cell.len() ==> (#[trigger] cell[i]) as u32 <= 0x7f,
    ensures
        table_safe(cell),
{
}

/// A text without an escape character can stand in a table.
pub proof fn lemma_unescaped_is_safe(cell: Seq<char>)
    requires
        forall|i: int| 0 <= i < cell.len() ==> #[trigger] cell[i] != '\u{1b}',
    ensures
        table_safe(cell),
{
}

/// However an ASCII text without an escape character is painted, it can
/// stand in a table.
pub proof fn lemma_painted_is_safe(text: Seq<char>, color: Color, bold: bool, out: Seq<char>)
    requires
        plain_ascii(text),
        painted(text, color, bold, out),
    ensures
        table_safe(out),
{
    if holds_reset(text) {
        let i = choose|i: int|
            0 <= i && i + 4 <= text.len() && #[trigger] text.subrange(i, i + 4) == reset_seq();
        assert(text.subrange(i, i + 4)[0] == text[i]);
        assert(reset_seq()[0] == '\u{1b}');
    }
    if out != text {
        let code = choose|code: Seq<char>| #[trigger]
            selects(code, color) && out == style_prefix(code, bold) + text + reset_seq();
        let lead: Seq<char> = if bold {
            seq!['1', ';']
        } else {
            Seq::empty()
        };
        let head = seq!['\u{1b}', '['] + lead;
        let prefix = style_prefix(code, bold);
        assert(prefix == head + code + seq!['m']);
        assert forall|k: int| 0 <= k < code.len() implies (#[trigger] code[k]) as u32 <= 0x7f by {
            if !(color is TrueColor) {
                assert(code == named_code(color));
            }
        }
        assert forall|k: int| 0 <= k < out.len() implies (#[trigger] out[k]) as u32 <= 0x7f by {
            if k < prefix.len() {
                assert(out[k] == prefix[k]);
                if k < head.len() {
                    assert(prefix[k] == head[k]);
                } else if k < head.len() + code.len() {
                    assert(prefix[k] == code[k - head.len()]);
                } else {
                    assert(prefix[k] == 'm');
                }
            } else if k < prefix.len() + text.len() {
                assert(out[k] == text[k - prefix.len()]);
            } else {
                assert(out[k] == reset_seq()[k - prefix.len() - text.len()]);
            }
        }
    }
    lemma_ascii_is_safe(out);
}

/// Whatever a cell that a table can hold is shown as, the table can hold
/// it.
pub proof fn lemma_shown_is_safe(span: Span<Seq<char>>, out: Seq<char>)
    requires
        cell_drawable(span),
        shown_as(span, out),
    ensures
        table_safe(out),
{
    match span.style {
        Style::Plain => {},
        Style::Tint(color) => lemma_painted_is_safe(span.text, color, false, out),
        Style::Strong(color) => lemma_painted_is_safe(span.text, color, true, out),
    }
}

/// Lays out a table of styled cells.
pub fn render_table(rows: &Vec<Vec<Span<String>>>) -> (out: String)
    requires
        rows_drawable(row_views(rows@)),
    ensures
        draws(row_views(rows@), out@),
{
    let mut cells: Vec<Vec<String>> = Vec::new();
    let n = rows.len();
    let mut i: usize = 0;
    while i < n
        invariant
            i <= n,
            n == rows.len(),
            rows_drawable(row_views(rows@)),
            cells_painted_as(row_views(rows@).take(i as int), cell_texts(cells@)),
            cells_safe(cell_texts(cells@)),
        decreases n - i,
    {
        let row = show_all(&rows[i]);
        let ghost done = cells@;
        cells.push(row);
        proof {
            let before = row_views(rows@).take(i as int);
            let after = row_views(rows@).take(i + 1);
            assert forall|j: int| 0 <= j < after.len() implies painted_as(
                #[trigger] after[j],
                cell_texts(cells@)[j],
            ) by {
                if j < i {
                    assert(before[j] == after[j]);
                    assert(cell_texts(cells@)[j] == cell_texts(done)[j]);
                }
            }
            assert forall|r: int, c: int|
                0 <= r < cell_texts(cells@).len() && 0 <= c < cell_texts(
                    cells@,
                )[r].len() implies table_safe(#[trigger] cell_texts(cells@)[r][c]) by {
                if r < i {
                    assert(cell_texts(cells@)[r] == cell_texts(done)[r]);
                    assert(table_safe(cell_texts(done)[r][c]));
                } else {
                    let spans = row_views(rows@)[i as int];
                    assert(after[i as int] == spans);
                    assert(shown_as(spans[c], texts(row@)[c]));
                    assert(cell_drawable(row_views(rows@)[i as int][c]));
                    lemma_shown_is_safe(spans[c], texts(row@)[c]);
                }
            }
        }
        i = i + 1;
    }
    proof {
        assert(row_views(rows@).take(n as int) =~= row_views(rows@));
    }
    draw_table(&cells)
}

/// Whether a table can hold `cell`.
pub fn is_table_safe(cell: &str) -> (safe: bool)
    ensures
        safe == table_safe(cell@),
{
    let cs = chars_of(cell);
    let n = cs.len();
    let mut seen = false;
    let ghost mut at: int = 0;
    let mut j: usize = 0;
    while j < n
        invariant
            j <= n,
            n == cs.len(),
            cs@ == cell@,
            seen ==> 0 <= at < j && cs@[at] == '\u{1b}',
            !seen ==> forall|i: int| 0 <= i < j ==> #[trigger] cs@[i] != '\u{1b}',
            forall|a: int, b: int|
                #![trigger cs@[a], cs@[b]]
                0 <= a < b < j && cs@[a] == '\u{1b}' ==> cs@[b] as u32 <= 0x7f,
        decreases n - j,
    {
        let c: char = cs[j];
        let code: u32 = c as u32;
        if seen && code > 0x7f {
            assert(cell@[at] == '\u{1b}' && !(cell@[j as int] as u32 <= 0x7f));
            return false;
        }
        if CharClass::Escape.holds(c) {
            seen = true;
            proof {
                at = j as int;
            }
        }
        j = j + 1;
    }
    true
}

/// Whether `text` is ASCII throughout and holds no escape character.
pub fn is_plain_ascii(text: &str) -> (plain: bool)
    ensures
        plain == plain_ascii(text@),
{
    let cs = chars_of(text);
    let n = cs.len();
    let mut j: usize = 0;
    while j < n
        invariant
            j <= n,
            n == cs.len(),
            cs@ == text@,
            forall|i: int| 0 <= i < j ==> (#[trigger] cs@[i]) as u32 <= 0x7f && cs@[i] != '\u{1b}',
        decreases n - j,
    {
        let c: char = cs[j];
        let code: u32 = c as u32;
        if code > 0x7f || CharClass::Escape.holds(c) {
            assert(!((text@[j as int]) as u32 <= 0x7f && text@[j as int] != '\u{1b}'));
            return false;
        }
        j = j + 1;
    }
    true
}

/// Whether a table can hold the styled cell `span`.
pub fn is_cell_drawable(span: &Span<String>) -> (ok: bool)
    ensures
        ok == cell_drawable(span@),
{
    match span.style {
        Style::Plain => is_table_safe(span.text.as_str()),
        _ => is_plain_ascii(span.text.as_str()),
    }
}

/// Whether a table can hold every one of the styled cells of `rows`.
pub fn are_rows_drawable(rows: &Vec<Vec<Span<String>>>) -> (ok: bool)
    ensures
        ok == rows_drawable(row_views(rows@)),
{
    let n = rows.len();
    let mut r: usize = 0;
    while r < n
        invariant
            r <= n,
            n == rows.len(),
            forall|a: int, c: int|
                0 <= a < r && 0 <= c < row_views(rows@)[a].len() ==> cell_drawable(
                    #[trigger] row_views(rows@)[a][c],
                ),
        decreases n - r,
    {
        let row = &rows[r];
        let m = row.len();
        let mut c: usize = 0;
        while c < m
            invariant
                c <= m,
                m == row.len(),
                r < n,
                n == rows.len(),
                *row == rows@[r as int],
                forall|b: int|
                    0 <= b < c ==> cell_drawable(#[trigger] row_views(rows@)[r as int][b]),
            decreases m - c,
        {
            if !is_cell_drawable(&row[c]) {
                assert(!cell_drawable(row_views(rows@)[r as int][c as int]));
                return false;
            }
            c = c + 1;
        }
        r = r + 1;
    }
    true
}

/// Lays out a table of styled cells where a table can hold them all, and
/// tells where it cannot.
pub fn try_render_table(rows: &Vec<Vec<Span<String>>>) -> (out: Option<String>)
    ensures
        out is Some <==> rows_drawable(row_views(rows@)),
        out matches Some(text) ==> draws(row_views(rows@), text@),
{
    if are_rows_drawable(rows) {
        Some(render_table(rows))
    } else {
        None
    }
}

/// A row of two plain cells.
pub open spec fn plain_row(left: Seq<char>, right: Seq<char>) -> Seq<Span<Seq<char>>> {
    seq![plain(left), plain(right)]
}

/// A row of two plain cells.
pub fn row_of(left: &str, right: &str) -> (row: Vec<Span<String>>)
    ensures
        span_views(row@) == plain_row(left@, right@),
{
    let row = vec![Span::plain(left), Span::plain(right)];
    proof {
        assert(span_views(row@) =~= plain_row(left@, right@));
    }
    row
}

/// The table of commands.
pub open spec fn help_rows() -> Seq<Seq<Span<Seq<char>>>> {
    seq![
        plain_row("Command"@, "Description"@),
        plain_row("/listusers"@, "List all users"@),
        plain_row("/history [blank, username, all]"@, "Show msg history"@),
        plain_row("/whisper <username> <message>"@, "Send a private message to a user"@),
        plain_row("/changepw <old_password> <new_password>"@, "Change your password"@),
        plain_row("/color <color_name>"@, "Change your username color"@),
        plain_row("/admin <password>"@, "Become an admin"@),
        plain_row("/ban <username>"@, "Ban a user"@),
        plain_row("/unban <username>"@, "Unban a user"@),
        plain_row("/mute <username>"@, "Mute a user"@),
        plain_row("/unmute <username>"@, "Unmute a user"@),
        plain_row("/help"@, "Show this help message"@),
    ]
}

/// A table can hold the table of commands.
pub proof fn lemma_help_is_drawable()
    ensures
        rows_drawable(help_rows()),
{
    reveal_strlit("Command");
    lemma_ascii_is_safe("Command"@);
    reveal_strlit("Description");
    lemma_ascii_is_safe("Description"@);
    reveal_strlit("/listusers");
    lemma_ascii_is_safe("/listusers"@);
    reveal_strlit("List all users");
    lemma_ascii_is_safe("List all users"@);
    reveal_strlit("/history [blank, username, all]");
    lemma_ascii_is_safe("/history [blank, username, all]"@);
    reveal_strlit("Show msg history");
    lemma_ascii_is_safe("Show msg history"@);
    reveal_strlit("/whisper <username> <message>");
    lemma_ascii_is_safe("/whisper <username> <message>"@);
    reveal_strlit("Send a private message to a user");
    lemma_ascii_is_safe("Send a private message to a user"@);
    reveal_strlit("/changepw <old_password> <new_password>");
    lemma_ascii_is_safe("/changepw <old_password> <new_password>"@);
    reveal_strlit("Change your password");
    lemma_ascii_is_safe("Change your password"@);
    reveal_strlit("/color <color_name>");
    lemma_ascii_is_safe("/color <color_name>"@);
    reveal_strlit("Change your username color");
    lemma_ascii_is_safe("Change your username color"@);
    reveal_strlit("/admin <password>");
    lemma_ascii_is_safe("/admin <password>"@);
    reveal_strlit("Become an admin");
    lemma_ascii_is_safe("Become an admin"@);
    reveal_strlit("/ban <username>");
    lemma_ascii_is_safe("/ban <username>"@);
    reveal_strlit("Ban a user");
    lemma_ascii_is_safe("Ban a user"@);
    reveal_strlit("/unban <username>");
    lemma_ascii_is_safe("/unban <username>"@);
    reveal_strlit("Unban a user");
    lemma_ascii_is_safe("Unban a user"@);
    reveal_strlit("/mute <username>");
    lemma_ascii_is_safe("/mute <username>"@);
    reveal_strlit("Mute a user");
    lemma_ascii_is_safe("Mute a user"@);
    reveal_strlit("/unmute <username>");
    lemma_ascii_is_safe("/unmute <username>"@);
    reveal_strlit("Unmute a user");
    lemma_ascii_is_safe("Unmute a user"@);
    reveal_strlit("/help");
    lemma_ascii_is_safe("/help"@);
    reveal_strlit("Show this help message");
    lemma_ascii_is_safe("Show this help message"@);
}

/// Builds the table of commands.
pub fn help_table() -> (rows: Vec<Vec<Span<String>>>)
    ensures
        row_views(rows@) == help_rows(),
        rows_drawable(row_views(rows@)),
{
    let rows = vec![
        row_of("Command", "Description"),
        row_of("/listusers", "List all users"),
        row_of("/history [blank, username, all]", "Show msg history"),
        row_of("/whisper <username> <message>", "Send a private message to a user"),
        row_of("/changepw <old_password> <new_password>", "Change your password"),
        row_of("/color <color_name>", "Change your username color"),
        row_of("/admin <password>", "Become an admin"),
        row_of("/ban <username>", "Ban a user"),
        row_of("/unban <username>", "Unban a user"),
        row_of("/mute <username>", "Mute a user"),
        row_of("/unmute <username>", "Unmute a user"),
        row_of("/help", "Show this help message"),
    ];
    proof {
        assert(row_views(rows@) =~= help_rows());
        lemma_help_is_drawable();
    }
    rows
}

/// An account name as a table shows it: as it is where a table can hold
/// it, and else without its escape characters.
pub open spec fn tame(name: Seq<char>) -> Seq<char> {
    if table_safe(name) {
        name
    } else {
        without_escapes(name)
    }
}

/// A table can hold every name as it shows it.
pub proof fn lemma_tame_is_safe(name: Seq<char>)
    ensures
        table_safe(tame(name)),
{
    if !table_safe(name) {
        lemma_without_escapes_holds_none(name);
        lemma_unescaped_is_safe(without_escapes(name));
    }
}

/// The name as a table shows it.
pub fn tamed(name: &str) -> (shown: String)
    ensures
        shown@ == tame(name@),
        table_safe(shown@),
{
    proof {
        lemma_tame_is_safe(name@);
    }
    if is_table_safe(name) {
        String::from_str(name)
    } else {
        strip_escapes(name)
    }
}

/// The row of one account: its name as a table shows it, and whether it
/// is online.
pub open spec fn presence_row(registry: Shared, user: Seq<char>) -> Seq<Span<Seq<char>>> {
    seq![
        plain(tame(user)),
        if registry.online(user) {
            tint("Online"@, Color::Green)
        } else {
            tint("Offline"@, Color::Red)
        },
    ]
}

/// The table of accounts: a heading, then one row for each of `users`, in
/// their order.
pub open spec fn presence_rows(registry: Shared, users: Seq<Seq<char>>) -> Seq<
    Seq<Span<Seq<char>>>,
> {
    seq![plain_row("Username"@, "Status"@)] + Seq::new(
        users.len(),
        |i: int| presence_row(registry, users[i]),
    )
}

/// A table can hold the table of accounts, whatever the accounts are
/// called.
pub proof fn lemma_presence_is_drawable(registry: Shared, users: Seq<Seq<char>>)
    ensures
        rows_drawable(presence_rows(registry, users)),
{
    reveal_strlit("Username");
    reveal_strlit("Status");
    reveal_strlit("Online");
    reveal_strlit("Offline");
    let rows = presence_rows(registry, users);
    lemma_ascii_is_safe("Username"@);
    lemma_ascii_is_safe("Status"@);
    assert(plain_ascii("Online"@));
    assert(plain_ascii("Offline"@));
    assert forall|r: int, c: int|
        0 <= r < rows.len() && 0 <= c < rows[r].len() implies cell_drawable(
        #[trigger] rows[r][c],
    ) by {
        if r > 0 {
            assert(rows[r] == presence_row(registry, users[r - 1]));
            lemma_tame_is_safe(users[r - 1]);
        }
    }
}

/// Builds the table of accounts, marking each as online or offline.
pub fn presence_table(registry: &Shared, users: &Vec<String>) -> (rows: Vec<Vec<Span<String>>>)
    requires
        registry.wf(),
    ensures
        row_views(rows@) == presence_rows(*registry, texts(users@)),
        rows_drawable(row_views(rows@)),
{
    let mut rows = vec![row_of("Username", "Status")];
    proof {
        assert(row_views(rows@) =~= presence_rows(*registry, texts(users@).take(0)));
    }
    let n = users.len();
    let mut i: usize = 0;
    while i < n
        invariant
            i <= n,
            n == users.len(),
            registry.wf(),
            rows.len() == i + 1,
            row_views(rows@) == presence_rows(*registry, texts(users@).take(i as int)),
        decreases n - i,
    {
        let user = users[i].as_str();
        let status = if registry.is_user_connected(user) {
            Span::tint("Online", Color::Green)
        } else {
            Span::tint("Offline", Color::Red)
        };
        let shown = tamed(user);
        let row = vec![Span::plain(shown.as_str()), status];
        proof {
            assert(span_views(row@) =~= presence_row(*registry, users@[i as int]@));
            assert(texts(users@).take(i + 1)[i as int] == users@[i as int]@);
        }
        let ghost before = rows@;
        rows.push(row);
        proof {
            let done = presence_rows(*registry, texts(users@).take(i as int));
            let next = presence_rows(*registry, texts(users@).take(i + 1));
            assert(row_views(before) == done);
            assert(next.len() == i + 2);
            assert(row_views(rows@).len() == i + 2);
            assert forall|k: int| 0 <= k < next.len() implies row_views(rows@)[k] == next[k] by {
                if k <= i {
                    assert(rows@[k] == before[k]);
                    assert(row_views(rows@)[k] == row_views(before)[k]);
                    assert(done[k] == next[k]);
                }
            }
            assert(row_views(rows@) =~= next);
        }
        i = i + 1;
    }
    proof {
        assert(texts(users@).take(n as int) =~= texts(users@));
        lemma_presence_is_drawable(*registry, texts(users@));
    }
    rows
}

} // verus!
