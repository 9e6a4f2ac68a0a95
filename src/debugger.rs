//! The logger instance: a label, its color, the terminal's tier, whether it
//! emits, and when it last emitted.

use vstd::prelude::*;
use std::time::Instant;
use crate::color::{
    ColorSupportLevel, get_ansi_color_sequence, get_color_support_level, is_color_for,
    support_level_of,
};
use crate::emoji::{emojis_resolved, resolve_emojis};
use crate::pattern::{is_permitted_to_write, label_enabled};
use crate::text::{decimal, lemma_decimal_nonempty, push_decimal};

verus! {

#[verifier::external_type_specification]
#[verifier::external_body]
pub struct ExInstant(std::time::Instant);

/// Turns bold text on.
pub const ANSI_BOLD_SEQUENCE: &'static str = "\x1b[1m";

/// Turns every attribute off.
pub const ANSI_RESET_SEQUENCE: &'static str = "\x1b[0m";

/// How the local date and time are written before a label on a terminal
/// without color.
pub const TIME_FORMAT: &'static str = "%Y-%m-%d %H:%M:%S";

/// Relies on `std::time::Instant::now`: the current instant.
#[verifier::external_body]
fn instant_now() -> Instant {
    Instant::now()
}

/// Relies on `std::time::Instant::elapsed`: the whole milliseconds since
/// `earlier`.
#[verifier::external_body]
fn millis_since(earlier: &Instant) -> u128 {
    earlier.elapsed().as_millis()
}

/// A character that the local time can be written with: a digit, the sign
/// of a year outside 0..=9999, or a separator of `TIME_FORMAT`.
pub open spec fn is_time_char(c: char) -> bool {
    ('0' <= c && c <= '9') || c == '+' || c == '-' || c == ' ' || c == ':'
}

/// Every character of `s` is one that the local time can be written with.
pub open spec fn is_time_text(s: Seq<char>) -> bool {
    forall|i: int| 0 <= i < s.len() ==> is_time_char(#[trigger] s[i])
}

/// Relies on chrono's `Local::now().format(format)`: the local date and
/// time written in `format`, which is the library's own format, one that
/// chrono renders without error. Its fields are written as zero-padded
/// digits, a year outside 0..=9999 with a sign, between the format's own
/// separators.
#[verifier::external_body]
fn local_time_text(format: &str) -> (r: String)
    requires
        format@ == TIME_FORMAT@,
    ensures
        is_time_text(r@),
{
    chrono::Local::now().format(format).to_string()
}

/// The label of a child: the parent's, a colon, and the child's own.
pub open spec fn extended_label(parent: Seq<char>, child: Seq<char>) -> Seq<char> {
    parent + ":"@ + child
}

/// The label as a line shows it: after the local time `time` on a terminal
/// without color, else bold and in the instance's color.
pub open spec fn label_text(
    level: ColorSupportLevel,
    color: Seq<char>,
    label: Seq<char>,
    time: Seq<char>,
) -> Seq<char> {
    if level == ColorSupportLevel::NoColor {
        time + " ["@ + label + "]"@
    } else {
        ANSI_BOLD_SEQUENCE@ + color + "["@ + label + "]"@ + ANSI_RESET_SEQUENCE@
    }
}

/// The elapsed-time marker: nothing on a terminal without color, `+0` before
/// the first emission, else the milliseconds since the last one.
pub open spec fn marker_text(
    level: ColorSupportLevel,
    color: Seq<char>,
    elapsed: Option<u128>,
) -> Seq<char> {
    if level == ColorSupportLevel::NoColor {
        Seq::<char>::empty()
    } else {
        match elapsed {
            None => ANSI_BOLD_SEQUENCE@ + color + "+0"@ + ANSI_RESET_SEQUENCE@,
            Some(ms) => ANSI_BOLD_SEQUENCE@ + color + "+"@ + decimal(ms as nat) + "ms"@
                + ANSI_RESET_SEQUENCE@,
        }
    }
}

/// One output line: label, message and marker, separated by spaces.
pub open spec fn line_text(label: Seq<char>, message: Seq<char>, marker: Seq<char>) -> Seq<char> {
    label + " "@ + message + " "@ + marker + "\n"@
}

/// Writes the label as `label_text` gives it.
pub fn format_label_at(level: ColorSupportLevel, color: &str, label: &str, time: &str) -> (r: String)
    ensures
        r@ == label_text(level, color@, label@, time@),
{
    if level == ColorSupportLevel::NoColor {
        let mut s = String::from_str(time);
        s.append(" [");
        s.append(label);
        s.append("]");
        s
    } else {
        let mut s = String::from_str(ANSI_BOLD_SEQUENCE);
        s.append(color);
        s.append("[");
        s.append(label);
        s.append("]");
        s.append(ANSI_RESET_SEQUENCE);
        s
    }
}

/// Writes the marker as `marker_text` gives it.
pub fn format_marker(level: ColorSupportLevel, color: &str, elapsed: Option<u128>) -> (r: String)
    ensures
        r@ == marker_text(level, color@, elapsed),
{
    if level == ColorSupportLevel::NoColor {
        return String::new();
    }
    let mut s = String::from_str(ANSI_BOLD_SEQUENCE);
    s.append(color);
    match elapsed {
        None => {
            s.append("+0");
        },
        Some(ms) => {
            s.append("+");
            push_decimal(&mut s, ms);
            s.append("ms");
        },
    }
    s.append(ANSI_RESET_SEQUENCE);
    s
}

/// Joins label, message and marker into a line as `line_text` gives it.
pub fn format_line(label: &str, message: &str, marker: &str) -> (r: String)
    ensures
        r@ == line_text(label@, message@, marker@),
{
    let mut s = String::from_str(label);
    s.append(" ");
    s.append(message);
    s.append(" ");
    s.append(marker);
    s.append("\n");
    s
}

/// A labelled logger. Whether it emits is decided from the filter setting
/// when it is made, and can be overridden with `enable` and `disable`.
pub struct RsDebugger {
    label: String,
    color: String,
    support_level: ColorSupportLevel,
    enabled: bool,
    last_emission: Option<Instant>,
}

impl RsDebugger {
    /// The label.
    pub closed spec fn label_view(&self) -> Seq<char> {
        self.label@
    }

    /// The color sequence, assigned once at construction.
    pub closed spec fn color_view(&self) -> Seq<char> {
        self.color@
    }

    /// The terminal's color tier.
    pub closed spec fn level(&self) -> ColorSupportLevel {
        self.support_level
    }

    /// Whether the instance emits.
    pub closed spec fn enabled_flag(&self) -> bool {
        self.enabled
    }

    /// When the instance last emitted, if it has.
    pub closed spec fn emitted_at(&self) -> Option<Instant> {
        self.last_emission
    }

    /// The label is not empty and the color is one that the tier assigns.
    pub open spec fn wf(&self) -> bool {
        self.label_view().len() > 0 && is_color_for(self.level(), self.color_view())
    }

    /// A logger labelled `label`. It emits when the filter setting `filter`
    /// (`None` when unset) enables the label; its tier comes from the `TERM`
    /// and `COLORTERM` settings, and its color is drawn for that tier.
    pub fn new(label: String, filter: Option<&str>, term: Option<&str>, colorterm: Option<&str>) -> (r: Self)
        requires
            label@.len() > 0,
        ensures
            r.wf(),
            r.label_view() == label@,
            r.enabled_flag() == label_enabled(label@, filter),
            r.level() == support_level_of(term, colorterm),
            r.emitted_at() is None,
    {
        let enabled = is_permitted_to_write(label.as_str(), filter);
        let support_level = get_color_support_level(term, colorterm);
        let color = get_ansi_color_sequence(support_level);
        RsDebugger { label, color, support_level, enabled, last_emission: None }
    }

    /// A child logger labelled `<parent label>:<label>`, with the parent's
    /// tier, a fresh color, no emission yet, and an enabled flag of its own
    /// decided by `filter`. The parent is left as it was.
    pub fn extend(&mut self, label: String, filter: Option<&str>) -> (r: Self)
        ensures
            *final(self) == *old(self),
            r.wf(),
            r.label_view() == extended_label(old(self).label_view(), label@),
            r.enabled_flag() == label_enabled(r.label_view(), filter),
            r.level() == old(self).level(),
            r.emitted_at() is None,
    {
        let mut root_label = self.label.clone();
        root_label.append(":");
        root_label.append(label.as_str());
        proof {
            reveal_strlit(":");
        }
        let enabled = is_permitted_to_write(root_label.as_str(), filter);
        let color = get_ansi_color_sequence(self.support_level);
        RsDebugger {
            label: root_label,
            color,
            support_level: self.support_level,
            enabled,
            last_emission: None,
        }
    }

    /// The label.
    pub fn label(&self) -> (r: &str)
        ensures
            r@ == self.label_view(),
    {
        self.label.as_str()
    }

    /// The color sequence.
    pub fn color(&self) -> (r: &str)
        ensures
            r@ == self.color_view(),
    {
        self.color.as_str()
    }

    /// The terminal's color tier.
    pub fn support_level(&self) -> (r: ColorSupportLevel)
        ensures
            r == self.level(),
    {
        self.support_level
    }

    /// Makes the instance emit.
    pub fn enable(&mut self)
        ensures
            final(self).enabled_flag(),
            final(self).label_view() == old(self).label_view(),
            final(self).color_view() == old(self).color_view(),
            final(self).level() == old(self).level(),
            final(self).emitted_at() == old(self).emitted_at(),
    {
        self.enabled = true;
    }

    /// Silences the instance.
    pub fn disable(&mut self)
        ensures
            !final(self).enabled_flag(),
            final(self).label_view() == old(self).label_view(),
            final(self).color_view() == old(self).color_view(),
            final(self).level() == old(self).level(),
            final(self).emitted_at() == old(self).emitted_at(),
    {
        self.enabled = false;
    }

    /// Whether the instance emits.
    pub fn is_enabled(&self) -> (r: bool)
        ensures
            r == self.enabled_flag(),
    {
        self.enabled
    }

    /// The label as a line shows it; on a terminal without color it follows
    /// the local time.
    pub fn format_label(&self) -> (r: String)
        ensures
            exists|time: Seq<char>|
                is_time_text(time) && r@ == #[trigger] label_text(
                    self.level(),
                    self.color_view(),
                    self.label_view(),
                    time,
                ),
    {
        let time = if self.support_level == ColorSupportLevel::NoColor {
            local_time_text(TIME_FORMAT)
        } else {
            String::new()
        };
        assert(is_time_text(time@));
        let r = format_label_at(self.support_level, self.color.as_str(), self.label.as_str(), time.as_str());
        assert(r@ == label_text(self.level(), self.color_view(), self.label_view(), time@));
        r
    }

    /// The elapsed-time marker: `+0` before the first emission, else some
    /// whole number of milliseconds measured from the last emission.
    pub fn format_timestamp(&self) -> (r: String)
        ensures
            exists|elapsed: Option<u128>|
                (elapsed is Some <==> self.emitted_at() is Some) && r@ == #[trigger] marker_text(
                    self.level(),
                    self.color_view(),
                    elapsed,
                ),
    {
        let elapsed = match &self.last_emission {
            Some(at) => Some(millis_since(at)),
            None => None,
        };
        let r = format_marker(self.support_level, self.color.as_str(), elapsed);
        assert(r@ == marker_text(self.level(), self.color_view(), elapsed));
        r
    }

    /// The message with its emoji shortcodes resolved.
    pub fn replace_emojis(&self, logline: String) -> (r: String)
        ensures
            r@ == emojis_resolved(logline@),
    {
        resolve_emojis(logline.as_str())
    }

    /// The line that the instance emits for `logline`, or `None` when it is
    /// disabled.
    pub fn format_logline(&self, logline: &str) -> (r: Option<String>)
        ensures
            r is None <==> !self.enabled_flag(),
            r is Some ==> exists|time: Seq<char>, elapsed: Option<u128>|
                is_time_text(time) && (elapsed is Some <==> self.emitted_at() is Some) && r->0@ == line_text(
                    #[trigger] label_text(self.level(), self.color_view(), self.label_view(), time),
                    emojis_resolved(logline@),
                    #[trigger] marker_text(self.level(), self.color_view(), elapsed),
                ),
    {
        if !self.enabled {
            return None;
        }
        let label = self.format_label();
        let marker = self.format_timestamp();
        let message = resolve_emojis(logline);
        Some(format_line(label.as_str(), message.as_str(), marker.as_str()))
    }

    /// Records that a line was emitted now.
    pub fn mark_emitted(&mut self)
        ensures
            final(self).emitted_at() is Some,
            final(self).enabled_flag() == old(self).enabled_flag(),
            final(self).label_view() == old(self).label_view(),
            final(self).color_view() == old(self).color_view(),
            final(self).level() == old(self).level(),
    {
        self.last_emission = Some(instant_now());
    }
}

/// Once an instance has emitted, its marker on a color terminal is a whole
/// number of milliseconds, zero or more, counted from that emission rather
/// than the `+0` of the first line.
pub proof fn lemma_marker_after_emission(level: ColorSupportLevel, color: Seq<char>, elapsed: Option<u128>)
    requires
        level != ColorSupportLevel::NoColor,
        elapsed is Some,
    ensures
        exists|ms: nat|
            marker_text(level, color, elapsed) == ANSI_BOLD_SEQUENCE@ + color + "+"@ + #[trigger] decimal(ms)
                + "ms"@ + ANSI_RESET_SEQUENCE@,
        marker_text(level, color, elapsed) != marker_text(level, color, None),
{
    let ms = elapsed->0 as nat;
    assert(marker_text(level, color, elapsed) == ANSI_BOLD_SEQUENCE@ + color + "+"@ + decimal(ms) + "ms"@
        + ANSI_RESET_SEQUENCE@);
    reveal_strlit("+0");
    reveal_strlit("+");
    reveal_strlit("ms");
    lemma_decimal_nonempty(ms);
    assert(marker_text(level, color, elapsed).len() > marker_text(level, color, None).len());
}

/// On a terminal without color a line holds no escape character but those
/// of the label and the message: the time before the label has none, and
/// there is no color and no marker.
pub proof fn lemma_no_color_line_has_no_escape(
    color: Seq<char>,
    label: Seq<char>,
    message: Seq<char>,
    time: Seq<char>,
    elapsed: Option<u128>,
)
    requires
        is_time_text(time),
        forall|i: int| 0 <= i < label.len() ==> label[i] != '\x1b',
        forall|i: int| 0 <= i < message.len() ==> message[i] != '\x1b',
    ensures
        ({
            let line = line_text(
                label_text(ColorSupportLevel::NoColor, color, label, time),
                message,
                marker_text(ColorSupportLevel::NoColor, color, elapsed),
            );
            forall|i: int| 0 <= i < line.len() ==> line[i] != '\x1b'
        }),
{
    reveal_strlit(" [");
    reveal_strlit("]");
    reveal_strlit(" ");
    reveal_strlit("\n");
    let head = time + " ["@ + label + "]"@;
    let line = head + " "@ + message + " "@ + Seq::<char>::empty() + "\n"@;
    assert(label_text(ColorSupportLevel::NoColor, color, label, time) == head);
    assert(marker_text(ColorSupportLevel::NoColor, color, elapsed) == Seq::<char>::empty());
    assert forall|i: int| 0 <= i < head.len() implies head[i] != '\x1b' by {
        if i < time.len() {
            assert(is_time_char(time[i]));
        }
    }
    assert forall|i: int| 0 <= i < line.len() implies line[i] != '\x1b' by {
        if i >= head.len() + 1 && i < head.len() + 1 + message.len() {
            assert(line[i] == message[i - head.len() - 1]);
        }
    }
}

/// Deriving `b` from the child `a` gives the label that deriving `a:b` from
/// the root would give.
pub proof fn lemma_extend_labels_associate(root: Seq<char>, a: Seq<char>, b: Seq<char>)
    ensures
        extended_label(extended_label(root, a), b) == extended_label(root, extended_label(a, b)),
{
    assert(extended_label(extended_label(root, a), b) =~= extended_label(root, extended_label(a, b)));
}

} // verus!
