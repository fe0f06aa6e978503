use vstd::prelude::*;

use crate::format_mode::FormatMode;
use crate::text::{
    ascii_prefix, ascii_prefix_of, collect_chars, format_i32, join_lines, parse_i32, sanitize_sauce_field,
    is_ascii_char, lemma_ascii_prefix_facts, lemma_line_state_join, lemma_lines_have_no_newline, lemma_parse_format_i32,
    lemma_utf8_len_ascii, line_state, no_newline, spec_format_i32, spec_lines, spec_parse_i32, strip_cr,
    string_from_chars, text_lines, utf8_len, utf8_len_of,
};

verus! {

// ---------------------------------------------------------------------------
// SAUCE limits
// ---------------------------------------------------------------------------

/// `icy_sauce::limits::MAX_TITLE_LENGTH`: the SAUCE title field holds 35 bytes.
#[verifier::external_body]
fn sauce_max_title_length() -> (n: usize)
    ensures
        n == 35,
{
    icy_sauce::limits::MAX_TITLE_LENGTH
}

/// `icy_sauce::limits::MAX_AUTHOR_LENGTH`: the SAUCE author field holds 20 bytes.
#[verifier::external_body]
fn sauce_max_author_length() -> (n: usize)
    ensures
        n == 20,
{
    icy_sauce::limits::MAX_AUTHOR_LENGTH
}

/// `icy_sauce::limits::MAX_GROUP_LENGTH`: the SAUCE group field holds 20 bytes.
#[verifier::external_body]
fn sauce_max_group_length() -> (n: usize)
    ensures
        n == 20,
{
    icy_sauce::limits::MAX_GROUP_LENGTH
}

/// `icy_sauce::limits::MAX_COMMENT_LENGTH`: a SAUCE comment line holds 64 bytes.
#[verifier::external_body]
fn sauce_max_comment_length() -> (n: usize)
    ensures
        n == 64,
{
    icy_sauce::limits::MAX_COMMENT_LENGTH
}

/// `icy_sauce::limits::MAX_COMMENTS`: SAUCE allows 255 comment lines.
#[verifier::external_body]
fn sauce_max_comments() -> (n: usize)
    ensures
        n == 255,
{
    icy_sauce::limits::MAX_COMMENTS
}

/// Characters the SAUCE title keeps.
pub open spec fn title_limit() -> int {
    35
}

/// Characters the SAUCE author and group keep.
pub open spec fn author_limit() -> int {
    20
}

/// Comment lines SAUCE allows.
pub open spec fn comments_limit() -> int {
    255
}

/// Bytes a SAUCE comment line allows.
pub open spec fn comment_length_limit() -> int {
    64
}

// ---------------------------------------------------------------------------
// Comments
// ---------------------------------------------------------------------------

/// Whether some line of the text is at least `n` bytes long in UTF-8.
pub open spec fn some_line_at_least(lines: Seq<Seq<char>>, n: int) -> bool {
    exists|i: int| 0 <= i < lines.len() && utf8_len_of(#[trigger] lines[i]) >= n
}

/// Whether the comments are at the SAUCE limits: as many lines as allowed,
/// or a line as long as allowed.
pub open spec fn spec_comments_at_limit(text: Seq<char>) -> bool {
    spec_lines(text).len() >= comments_limit() || some_line_at_least(spec_lines(text), comment_length_limit())
}

/// Whether the comments exceed the SAUCE limits: more lines than allowed,
/// or a line longer than allowed.
pub open spec fn spec_comments_exceed_limits(text: Seq<char>) -> bool {
    spec_lines(text).len() > comments_limit() || some_line_at_least(spec_lines(text), comment_length_limit() + 1)
}

/// The comments cut to the SAUCE limits: the first lines allowed, each
/// reduced to ASCII and cut to the line length, joined by newlines.
pub open spec fn spec_limited_comments(text: Seq<char>) -> Seq<char> {
    let lines = spec_lines(text);
    let kept = if lines.len() <= comments_limit() {
        lines
    } else {
        lines.take(comments_limit())
    };
    join_lines(kept.map_values(|l: Seq<char>| ascii_prefix(l, comment_length_limit())))
}

proof fn lemma_utf8_len_of_push(s: Seq<char>, c: char)
    ensures
        utf8_len_of(s.push(c)) == utf8_len_of(s) + utf8_len(c),
{
    assert(s.push(c).drop_last() =~= s);
}

/// Whether `line` takes at least `n` bytes in UTF-8.
fn utf8_len_at_least(line: &Vec<char>, n: usize) -> (r: bool)
    requires
        n <= 1000,
    ensures
        r == (utf8_len_of(line@) >= n),
{
    if n == 0 {
        proof {
            lemma_utf8_len_prefix_le(line@, 0);
            assert(line@.take(0) =~= Seq::<char>::empty());
        }
        return true;
    }
    let mut total: usize = 0;
    let mut i: usize = 0;
    assert(line@.take(0) =~= Seq::<char>::empty());
    while i < line.len()
        invariant
            0 <= i <= line@.len(),
            n <= 1000,
            total == utf8_len_of(line@.take(i as int)),
            total < n,
        decreases line@.len() - i,
    {
        let c = line[i];
        let u = c as u32;
        let w: usize = if u < 0x80 {
            1
        } else if u < 0x800 {
            2
        } else if u < 0x10000 {
            3
        } else {
            4
        };
        proof {
            assert(line@.take(i + 1) =~= line@.take(i as int).push(c));
            lemma_utf8_len_of_push(line@.take(i as int), c);
        }
        total = total + w;
        i = i + 1;
        if total >= n {
            proof {
                lemma_utf8_len_prefix_le(line@, i as int);
            }
            return true;
        }
    }
    assert(line@.take(line@.len() as int) =~= line@);
    false
}

proof fn lemma_utf8_len_prefix_le(s: Seq<char>, k: int)
    requires
        0 <= k <= s.len(),
    ensures
        utf8_len_of(s.take(k)) <= utf8_len_of(s),
    decreases s.len() - k,
{
    if k < s.len() {
        lemma_utf8_len_prefix_le(s, k + 1);
        assert(s.take(k + 1) =~= s.take(k).push(s[k]));
        lemma_utf8_len_of_push(s.take(k), s[k]);
    } else {
        assert(s.take(k) =~= s);
    }
}

/// Whether some line is at least `n` bytes long.
fn any_line_at_least(lines: &Vec<Vec<char>>, n: usize) -> (r: bool)
    requires
        n <= 1000,
    ensures
        r == exists|i: int| 0 <= i < lines@.len() && utf8_len_of(#[trigger] lines@[i]@) >= n,
{
    let mut i: usize = 0;
    while i < lines.len()
        invariant
            0 <= i <= lines@.len(),
            n <= 1000,
            forall|j: int| 0 <= j < i ==> utf8_len_of(#[trigger] lines@[j]@) < n,
        decreases lines@.len() - i,
    {
        if utf8_len_at_least(&lines[i], n) {
            return true;
        }
        i = i + 1;
    }
    false
}

/// Whether the comments text is at the SAUCE limits (then an insertion has
/// to be checked afterwards).
pub fn comments_at_limit(text: &str) -> (r: bool)
    ensures
        r == spec_comments_at_limit(text@),
{
    let chars = collect_chars(text);
    let lines = text_lines(chars.as_slice());
    let max_comments = sauce_max_comments();
    let max_len = sauce_max_comment_length();
    let r = lines.len() >= max_comments || any_line_at_least(&lines, max_len);
    proof {
        if some_line_at_least(spec_lines(text@), comment_length_limit()) {
            let i = choose|i: int| 0 <= i < spec_lines(text@).len() && utf8_len_of(#[trigger] spec_lines(text@)[i]) >= comment_length_limit();
            assert(lines@[i]@ == spec_lines(text@)[i]);
        }
        if exists|i: int| 0 <= i < lines@.len() && utf8_len_of(#[trigger] lines@[i]@) >= max_len {
            let i = choose|i: int| 0 <= i < lines@.len() && utf8_len_of(#[trigger] lines@[i]@) >= max_len;
            assert(lines@[i]@ == spec_lines(text@)[i]);
        }
    }
    r
}

/// Whether the comments text exceeds the SAUCE limits.
pub fn comments_exceed_limits(text: &str) -> (r: bool)
    ensures
        r == spec_comments_exceed_limits(text@),
{
    let chars = collect_chars(text);
    let lines = text_lines(chars.as_slice());
    let max_comments = sauce_max_comments();
    let max_len = sauce_max_comment_length();
    let r = lines.len() > max_comments || any_line_at_least(&lines, max_len + 1);
    proof {
        if some_line_at_least(spec_lines(text@), comment_length_limit() + 1) {
            let i = choose|i: int| 0 <= i < spec_lines(text@).len() && utf8_len_of(#[trigger] spec_lines(text@)[i]) >= comment_length_limit() + 1;
            assert(lines@[i]@ == spec_lines(text@)[i]);
        }
        if exists|i: int| 0 <= i < lines@.len() && utf8_len_of(#[trigger] lines@[i]@) >= max_len + 1 {
            let i = choose|i: int| 0 <= i < lines@.len() && utf8_len_of(#[trigger] lines@[i]@) >= max_len + 1;
            assert(lines@[i]@ == spec_lines(text@)[i]);
        }
    }
    r
}

/// The comments text cut to the SAUCE limits.
pub fn limit_comments(text: &str) -> (r: String)
    ensures
        r@ == spec_limited_comments(text@),
{
    let chars = collect_chars(text);
    let lines = text_lines(chars.as_slice());
    let max_comments = sauce_max_comments();
    let max_len = sauce_max_comment_length();
    let count = if lines.len() <= max_comments {
        lines.len()
    } else {
        max_comments
    };
    let ghost all = spec_lines(text@);
    let ghost kept = if all.len() <= comments_limit() {
        all
    } else {
        all.take(comments_limit())
    };
    let ghost mapped = kept.map_values(|l: Seq<char>| ascii_prefix(l, comment_length_limit()));
    assert(kept.len() == count);
    let mut out: Vec<char> = Vec::new();
    let mut i: usize = 0;
    assert(mapped.take(0) =~= Seq::<Seq<char>>::empty());
    while i < count
        invariant
            0 <= i <= count,
            count == kept.len(),
            count <= lines@.len(),
            lines@.len() == all.len(),
            forall|k: int| 0 <= k < lines@.len() ==> #[trigger] lines@[k]@ == all[k],
            kept.len() <= all.len(),
            forall|k: int| 0 <= k < kept.len() ==> #[trigger] kept[k] == all[k],
            max_len == comment_length_limit(),
            mapped == kept.map_values(|l: Seq<char>| ascii_prefix(l, comment_length_limit())),
            out@ == join_lines(mapped.take(i as int)),
        decreases count - i,
    {
        let line = ascii_prefix_of(lines[i].as_slice(), max_len);
        assert(line@ == mapped[i as int]);
        let ghost before = out@;
        if i > 0 {
            out.push('\n');
        }
        let mut j: usize = 0;
        let ghost base = out@;
        while j < line.len()
            invariant
                0 <= j <= line@.len(),
                out@ == base + line@.take(j as int),
            decreases line@.len() - j,
        {
            out.push(line[j]);
            assert(line@.take(j + 1) =~= line@.take(j as int).push(line@[j as int]));
            j = j + 1;
        }
        proof {
            assert(line@.take(line@.len() as int) =~= line@);
            let t = mapped.take(i + 1);
            assert(t.drop_last() =~= mapped.take(i as int));
            assert(t.last() == mapped[i as int]);
            if i == 0 {
                assert(t.len() == 1);
                assert(out@ =~= t[0]);
            } else {
                assert(out@ =~= join_lines(mapped.take(i as int)) + seq!['\n'] + mapped[i as int]);
            }
        }
        i = i + 1;
    }
    assert(mapped.take(count as int) =~= mapped);
    string_from_chars(out.as_slice())
}

/// The comment lines of a document as one text, joined by newlines.
pub fn comments_text(lines: &Vec<String>) -> (r: String)
    ensures
        r@ == join_lines(lines@.map_values(|l: String| l@)),
{
    let ghost views = lines@.map_values(|l: String| l@);
    let mut out: Vec<char> = Vec::new();
    let mut i: usize = 0;
    assert(views.take(0) =~= Seq::<Seq<char>>::empty());
    while i < lines.len()
        invariant
            0 <= i <= lines@.len(),
            views == lines@.map_values(|l: String| l@),
            out@ == join_lines(views.take(i as int)),
        decreases lines@.len() - i,
    {
        let line = collect_chars(lines[i].as_str());
        assert(line@ == views[i as int]);
        if i > 0 {
            out.push('\n');
        }
        let ghost base = out@;
        let mut j: usize = 0;
        while j < line.len()
            invariant
                0 <= j <= line@.len(),
                out@ == base + line@.take(j as int),
            decreases line@.len() - j,
        {
            out.push(line[j]);
            assert(line@.take(j + 1) =~= line@.take(j as int).push(line@[j as int]));
            j = j + 1;
        }
        proof {
            assert(line@.take(line@.len() as int) =~= line@);
            let t = views.take(i + 1);
            assert(t.drop_last() =~= views.take(i as int));
            if i == 0 {
                assert(out@ =~= t[0]);
            } else {
                assert(out@ =~= join_lines(views.take(i as int)) + seq!['\n'] + views[i as int]);
            }
        }
        i = i + 1;
    }
    assert(views.take(lines@.len() as int) =~= views);
    string_from_chars(out.as_slice())
}

/// Whether an edit of the comments has to be checked against the SAUCE
/// limits afterwards: only insertions into comments already at the limits.
pub fn comment_edit_needs_check(is_insert: bool, before: &str) -> (r: bool)
    ensures
        r == (is_insert && spec_comments_at_limit(before@)),
{
    is_insert && comments_at_limit(before)
}

/// The comments after an edit: when the edit had to be checked and the text
/// now exceeds the SAUCE limits, the text cut to them; otherwise the text
/// as edited.
pub fn comments_after_edit(edited: String, checked: bool) -> (r: String)
    ensures
        checked && spec_comments_exceed_limits(edited@) ==> r@ == spec_limited_comments(edited@),
        !(checked && spec_comments_exceed_limits(edited@)) ==> r@ == edited@,
{
    if checked && comments_exceed_limits(edited.as_str()) {
        limit_comments(edited.as_str())
    } else {
        edited
    }
}

// ---------------------------------------------------------------------------
// The dialog
// ---------------------------------------------------------------------------

/// The largest buffer a document may have.
#[derive(Debug, Clone, Copy, PartialEq, Eq, Structural)]
pub struct BufferLimits {
    pub max_width: i32,
    pub max_height: i32,
}

/// A canvas dimension as typed: a decimal number from 1 up to `max`.
pub open spec fn spec_parse_dimension(text: Seq<char>, max: i32) -> Option<i32> {
    match spec_parse_i32(text) {
        Some(v) => if 1 <= v && v <= max {
            Some(v)
        } else {
            None
        },
        None => None,
    }
}

/// A canvas dimension as typed: a decimal number from 1 up to `max`.
pub fn parse_dimension(text: &str, max: i32) -> (r: Option<i32>)
    ensures
        r == spec_parse_dimension(text@, max),
{
    match parse_i32(text) {
        Some(v) => {
            if v >= 1 && v <= max {
                Some(v)
            } else {
                None
            }
        },
        None => None,
    }
}

/// Result of the File Settings dialog.
#[derive(Debug, Clone)]
pub struct FileSettingsResult {
    /// Canvas width
    pub width: i32,
    /// Canvas height
    pub height: i32,
    /// SAUCE title
    pub title: String,
    /// SAUCE author
    pub author: String,
    /// SAUCE group
    pub group: String,
    /// SAUCE comments
    pub comments: String,
    /// Format mode
    pub format_mode: FormatMode,
    /// Ice colors enabled
    pub ice_colors: bool,
    /// 9px font mode
    pub use_9px_font: bool,
    /// Legacy aspect ratio
    pub legacy_aspect: bool,
}

/// The page the dialog shows.
#[derive(Debug, Clone, Copy, PartialEq, Eq, Structural)]
pub enum DialogPage {
    Settings,
    Comments,
}

/// Messages for the File Settings dialog (comment editing goes through
/// `comment_edit_needs_check` and `set_comments_after_edit`).
#[derive(Debug, Clone)]
pub enum FileSettingsDialogMessage {
    SetWidth(String),
    SetHeight(String),
    SetTitle(String),
    SetAuthor(String),
    SetGroup(String),
    SetFormatMode(FormatMode),
    SetIceColors(bool),
    Set9pxFont(bool),
    SetLegacyAspect(bool),
    ShowComments,
    ShowSettings,
    Apply,
    Cancel,
}

/// What the dialog asks of its host after a message.
#[derive(Debug, Clone)]
pub enum DialogAction {
    /// Stay open
    Stay,
    /// Close without applying
    Close,
    /// Close and apply these settings
    CloseWith(FileSettingsResult),
}

/// State of the File Settings dialog.
#[derive(Debug, Clone)]
pub struct FileSettingsDialog {
    pub page: DialogPage,
    pub width: String,
    pub height: String,
    pub title: String,
    pub author: String,
    pub group: String,
    pub comments: String,
    pub format_mode: FormatMode,
    pub ice_colors: bool,
    pub use_9px_font: bool,
    pub legacy_aspect: bool,
    pub initial_width: i32,
    pub initial_height: i32,
    pub limits: BufferLimits,
}

impl FileSettingsDialog {
    /// The result the dialog would apply: present exactly when both canvas
    /// dimensions are valid.
    pub open spec fn spec_result_fields(self) -> Option<(i32, i32)> {
        match (
            spec_parse_dimension(self.width@, self.limits.max_width),
            spec_parse_dimension(self.height@, self.limits.max_height),
        ) {
            (Some(w), Some(h)) => Some((w, h)),
            _ => None,
        }
    }

    /// Whether `r` carries the dialog's values with canvas size `(w, h)`.
    pub open spec fn carries(self, r: FileSettingsResult, w: i32, h: i32) -> bool {
        &&& r.width == w
        &&& r.height == h
        &&& r.title@ == self.title@
        &&& r.author@ == self.author@
        &&& r.group@ == self.group@
        &&& r.comments@ == self.comments@
        &&& r.format_mode == self.format_mode
        &&& r.ice_colors == self.ice_colors
        &&& r.use_9px_font == self.use_9px_font
        &&& r.legacy_aspect == self.legacy_aspect
    }

    /// A dialog showing the current document values.
    pub fn new(
        width: i32,
        height: i32,
        title: String,
        author: String,
        group: String,
        comments: String,
        format_mode: FormatMode,
        ice_colors: bool,
        use_9px_font: bool,
        legacy_aspect: bool,
        limits: BufferLimits,
    ) -> (d: FileSettingsDialog)
        ensures
            d.page == DialogPage::Settings,
            d.width@ == spec_format_i32(width),
            d.height@ == spec_format_i32(height),
            d.title == title,
            d.author == author,
            d.group == group,
            d.comments == comments,
            d.format_mode == format_mode,
            d.ice_colors == ice_colors,
            d.use_9px_font == use_9px_font,
            d.legacy_aspect == legacy_aspect,
            d.initial_width == width,
            d.initial_height == height,
            d.limits == limits,
    {
        FileSettingsDialog {
            page: DialogPage::Settings,
            width: format_i32(width),
            height: format_i32(height),
            title,
            author,
            group,
            comments,
            format_mode,
            ice_colors,
            use_9px_font,
            legacy_aspect,
            initial_width: width,
            initial_height: height,
            limits,
        }
    }

    /// The canvas width typed, if valid.
    pub fn parsed_width(&self) -> (r: Option<i32>)
        ensures
            r == spec_parse_dimension(self.width@, self.limits.max_width),
    {
        parse_dimension(self.width.as_str(), self.limits.max_width)
    }

    /// The canvas height typed, if valid.
    pub fn parsed_height(&self) -> (r: Option<i32>)
        ensures
            r == spec_parse_dimension(self.height@, self.limits.max_height),
    {
        parse_dimension(self.height.as_str(), self.limits.max_height)
    }

    /// Whether all inputs are valid.
    pub fn is_valid(&self) -> (r: bool)
        ensures
            r == self.spec_result_fields().is_some(),
    {
        self.parsed_width().is_some() && self.parsed_height().is_some()
    }

    /// The settings to apply, if the inputs are valid.
    pub fn result(&self) -> (r: Option<FileSettingsResult>)
        ensures
            r.is_some() == self.spec_result_fields().is_some(),
            match self.spec_result_fields() {
                Some(wh) => r is Some && self.carries(r->0, wh.0, wh.1),
                None => r is None,
            },
    {
        let width = match self.parsed_width() {
            Some(w) => w,
            None => return None,
        };
        let height = match self.parsed_height() {
            Some(h) => h,
            None => return None,
        };
        Some(
            FileSettingsResult {
                width,
                height,
                title: self.title.clone(),
                author: self.author.clone(),
                group: self.group.clone(),
                comments: self.comments.clone(),
                format_mode: self.format_mode,
                ice_colors: self.ice_colors,
                use_9px_font: self.use_9px_font,
                legacy_aspect: self.legacy_aspect,
            },
        )
    }

    /// Whether an edit of the comments has to be checked afterwards.
    pub fn comment_edit_needs_check(&self, is_insert: bool) -> (r: bool)
        ensures
            r == (is_insert && spec_comments_at_limit(self.comments@)),
    {
        comment_edit_needs_check(is_insert, self.comments.as_str())
    }

    /// Store the comments after an edit, cut to the SAUCE limits when the
    /// edit was checked and they now exceed them.
    pub fn set_comments_after_edit(&mut self, edited: String, checked: bool)
        ensures
            checked && spec_comments_exceed_limits(edited@) ==> final(self).comments@ == spec_limited_comments(
                edited@,
            ),
            !(checked && spec_comments_exceed_limits(edited@)) ==> final(self).comments@ == edited@,
            final(self).width == old(self).width,
            final(self).height == old(self).height,
            final(self).title == old(self).title,
            final(self).author == old(self).author,
            final(self).group == old(self).group,
            final(self).page == old(self).page,
            final(self).format_mode == old(self).format_mode,
            final(self).limits == old(self).limits,
    {
        self.comments = comments_after_edit(edited, checked);
    }

    /// Handle a dialog message.
    pub fn update(&mut self, message: FileSettingsDialogMessage) -> (action: DialogAction)
        ensures
            match message {
                FileSettingsDialogMessage::SetWidth(w) => final(self).width == w && *final(self) == (
                FileSettingsDialog { width: w, ..*old(self) }),
                FileSettingsDialogMessage::SetHeight(h) => *final(self) == (FileSettingsDialog {
                    height: h,
                    ..*old(self)
                }),
                FileSettingsDialogMessage::SetTitle(t) => final(self).title@ == ascii_prefix(t@, title_limit())
                    && *final(self) == (FileSettingsDialog { title: final(self).title, ..*old(self) }),
                FileSettingsDialogMessage::SetAuthor(a) => final(self).author@ == ascii_prefix(a@, author_limit())
                    && *final(self) == (FileSettingsDialog { author: final(self).author, ..*old(self) }),
                FileSettingsDialogMessage::SetGroup(g) => final(self).group@ == ascii_prefix(g@, author_limit())
                    && *final(self) == (FileSettingsDialog { group: final(self).group, ..*old(self) }),
                FileSettingsDialogMessage::SetFormatMode(m) => *final(self) == (FileSettingsDialog {
                    format_mode: m,
                    ..*old(self)
                }),
                FileSettingsDialogMessage::SetIceColors(v) => *final(self) == (FileSettingsDialog {
                    ice_colors: v,
                    ..*old(self)
                }),
                FileSettingsDialogMessage::Set9pxFont(v) => *final(self) == (FileSettingsDialog {
                    use_9px_font: v,
                    ..*old(self)
                }),
                FileSettingsDialogMessage::SetLegacyAspect(v) => *final(self) == (FileSettingsDialog {
                    legacy_aspect: v,
                    ..*old(self)
                }),
                FileSettingsDialogMessage::ShowComments => *final(self) == (FileSettingsDialog {
                    page: DialogPage::Comments,
                    ..*old(self)
                }),
                FileSettingsDialogMessage::ShowSettings => *final(self) == (FileSettingsDialog {
                    page: DialogPage::Settings,
                    ..*old(self)
                }),
                FileSettingsDialogMessage::Apply => *final(self) == *old(self),
                FileSettingsDialogMessage::Cancel => *final(self) == *old(self),
            },
            match message {
                FileSettingsDialogMessage::Apply => match old(self).spec_result_fields() {
                    Some(wh) => action is CloseWith && old(self).carries(action->CloseWith_0, wh.0, wh.1),
                    None => action is Stay,
                },
                FileSettingsDialogMessage::Cancel => action is Close,
                _ => action is Stay,
            },
    {
        match message {
            FileSettingsDialogMessage::SetWidth(w) => {
                self.width = w;
                DialogAction::Stay
            },
            FileSettingsDialogMessage::SetHeight(h) => {
                self.height = h;
                DialogAction::Stay
            },
            FileSettingsDialogMessage::SetTitle(t) => {
                let max = sauce_max_title_length();
                self.title = sanitize_sauce_field(t.as_str(), max);
                DialogAction::Stay
            },
            FileSettingsDialogMessage::SetAuthor(a) => {
                let max = sauce_max_author_length();
                self.author = sanitize_sauce_field(a.as_str(), max);
                DialogAction::Stay
            },
            FileSettingsDialogMessage::SetGroup(g) => {
                let max = sauce_max_group_length();
                self.group = sanitize_sauce_field(g.as_str(), max);
                DialogAction::Stay
            },
            FileSettingsDialogMessage::SetFormatMode(m) => {
                self.format_mode = m;
                DialogAction::Stay
            },
            FileSettingsDialogMessage::SetIceColors(v) => {
                self.ice_colors = v;
                DialogAction::Stay
            },
            FileSettingsDialogMessage::Set9pxFont(v) => {
                self.use_9px_font = v;
                DialogAction::Stay
            },
            FileSettingsDialogMessage::SetLegacyAspect(v) => {
                self.legacy_aspect = v;
                DialogAction::Stay
            },
            FileSettingsDialogMessage::ShowComments => {
                self.page = DialogPage::Comments;
                DialogAction::Stay
            },
            FileSettingsDialogMessage::ShowSettings => {
                self.page = DialogPage::Settings;
                DialogAction::Stay
            },
            FileSettingsDialogMessage::Apply => {
                match self.result() {
                    Some(r) => DialogAction::CloseWith(r),
                    None => DialogAction::Stay,
                }
            },
            FileSettingsDialogMessage::Cancel => DialogAction::Close,
        }
    }

    /// The dialog's answer to a cancel request: close.
    pub fn request_cancel(&mut self) -> (action: DialogAction)
        ensures
            action is Close,
            *final(self) == *old(self),
    {
        DialogAction::Close
    }

    /// The dialog's answer to a confirm request: apply the settings if the
    /// inputs are valid, otherwise stay open.
    pub fn request_confirm(&mut self) -> (action: DialogAction)
        ensures
            *final(self) == *old(self),
            match old(self).spec_result_fields() {
                Some(wh) => action is CloseWith && old(self).carries(action->CloseWith_0, wh.0, wh.1),
                None => action is Stay,
            },
    {
        if self.is_valid() {
            if let Some(result) = self.result() {
                return DialogAction::CloseWith(result);
            }
        }
        DialogAction::Stay
    }
}

/// A dialog opened on a document whose size lies within the limits applies
/// that size unchanged when confirmed at once: the size it shows reads back
/// as the size it was given.
pub proof fn lemma_fresh_dialog_keeps_size(d: FileSettingsDialog, width: i32, height: i32)
    requires
        d.width@ == spec_format_i32(width),
        d.height@ == spec_format_i32(height),
        1 <= width <= d.limits.max_width,
        1 <= height <= d.limits.max_height,
    ensures
        d.spec_result_fields() == Some((width, height)),
{
    lemma_parse_format_i32(width);
    lemma_parse_format_i32(height);
}

/// Comments cut to the SAUCE limits are within them: no more lines than
/// allowed, and no line longer than allowed.
pub proof fn lemma_limited_comments_within_limits(text: Seq<char>)
    ensures
        spec_lines(spec_limited_comments(text)).len() <= comments_limit(),
        !spec_comments_exceed_limits(spec_limited_comments(text)),
{
    let lines = spec_lines(text);
    let kept = if lines.len() <= comments_limit() {
        lines
    } else {
        lines.take(comments_limit())
    };
    let mapped = kept.map_values(|l: Seq<char>| ascii_prefix(l, comment_length_limit()));
    let out = spec_limited_comments(text);
    assert(out == join_lines(mapped));
    lemma_lines_have_no_newline(text);
    assert forall|i: int| 0 <= i < mapped.len() implies {
        &&& no_newline(#[trigger] mapped[i])
        &&& utf8_len_of(mapped[i]) <= comment_length_limit()
        &&& utf8_len_of(strip_cr(mapped[i])) <= comment_length_limit()
    } by {
        assert(kept[i] == lines[i]);
        assert(no_newline(lines[i]));
        lemma_ascii_prefix_facts(kept[i], comment_length_limit());
        lemma_utf8_len_ascii(mapped[i]);
        let st = strip_cr(mapped[i]);
        assert forall|k: int| 0 <= k < st.len() implies is_ascii_char(#[trigger] st[k]) by {
            assert(st[k] == mapped[i][k]);
        }
        lemma_utf8_len_ascii(st);
    }
    if mapped.len() == 0 {
        assert(out =~= Seq::<char>::empty());
        assert(spec_lines(out) =~= Seq::<Seq<char>>::empty());
    } else {
        lemma_line_state_join(mapped);
        let done = mapped.drop_last().map_values(|l: Seq<char>| strip_cr(l));
        let result = spec_lines(out);
        assert(result.len() <= mapped.len());
        assert forall|i: int| 0 <= i < result.len() implies utf8_len_of(#[trigger] result[i]) <= comment_length_limit() by {
            if i < done.len() {
                assert(result[i] == strip_cr(mapped[i]));
            } else {
                assert(result[i] == mapped.last());
            }
        }
    }
}

} // verus!
