//! The formatting pipeline: a pure function from an ordered sequence of
//! components plus a message to a rendered line, with or without color
//! escape sequences. The wall-clock time is the one time-dependent input;
//! it is obtained once and threaded through as an ordinary argument.

use vstd::prelude::*;

use crate::model::{LogColor, LogComponent, LogMessage};

verus! {

/// The styled form that the terminal-styling collaborator gives a text
/// with a foreground color. Its exact escape sequences are the
/// collaborator's business; the library relies only on the result being
/// determined by the text and the color.
pub uninterp spec fn colored_of(text: Seq<char>, color: LogColor) -> Seq<char>;

/// Relies on crossterm's `Stylize::with` and the ANSI rendering of
/// `StyledContent`: the styled form of a text with a foreground color is
/// determined by the text and the color alone.
#[verifier::external_body]
fn colorize(text: &str, color: LogColor) -> (r: String)
    ensures
        r@ == colored_of(text@, color),
{
    let c = match color {
        LogColor::White => crossterm::style::Color::White,
        LogColor::Yellow => crossterm::style::Color::Yellow,
        LogColor::Red => crossterm::style::Color::Red,
        LogColor::DarkRed => crossterm::style::Color::DarkRed,
        LogColor::Rgb { r, g, b } => crossterm::style::Color::Rgb { r, g, b },
    };
    crossterm::style::Stylize::with(text, c).to_string()
}

/// Shape of a clock reading rendered as `HH:MM:SS`.
pub open spec fn is_hms(t: Seq<char>) -> bool {
    t.len() == 8 && t[2] == ':' && t[5] == ':'
}

/// Relies on chrono's `Local::now` and its `%H:%M:%S` format items: the
/// current wall-clock time as two-digit hour, minute and second separated
/// by colons. The reading depends on the clock, so nothing more is stated.
#[verifier::external_body]
pub fn now_hms() -> (r: String)
    ensures
        is_hms(r@),
{
    chrono::Local::now().format("%H:%M:%S").to_string()
}

/// The textual contribution of one component to the rendered line.
pub open spec fn component_text(
    c: LogComponent,
    m: LogMessage,
    with_color: bool,
    time: Seq<char>,
) -> Seq<char> {
    match c {
        LogComponent::Prefix => if with_color {
            colored_of(m.log_style.prefix@, m.log_style.color)
        } else {
            m.log_style.prefix@
        },
        LogComponent::Message => if with_color && m.log_style.color_message {
            colored_of(m.log_message@, m.log_style.color)
        } else {
            m.log_message@
        },
        LogComponent::Time => time,
        LogComponent::Spacer => seq![' '],
        LogComponent::Newline => seq!['\n'],
        LogComponent::Literal(s) => s@,
    }
}

/// The rendered line: the concatenation, in order, of every component's
/// contribution.
pub open spec fn render_text(
    cs: Seq<LogComponent>,
    m: LogMessage,
    with_color: bool,
    time: Seq<char>,
) -> Seq<char>
    decreases cs.len(),
{
    if cs.len() == 0 {
        Seq::empty()
    } else {
        render_text(cs.drop_last(), m, with_color, time) + component_text(
            cs.last(),
            m,
            with_color,
            time,
        )
    }
}

/// Whether a component sequence reads the clock at all.
pub open spec fn contains_time(cs: Seq<LogComponent>) -> bool {
    exists|i: int| 0 <= i < cs.len() && cs[i] is Time
}

/// Rendering is a pure function of components, message and color flag:
/// when no `Time` component occurs, the clock reading threaded through the
/// renderer cannot influence the output, so two renderings of identical
/// inputs are identical.
pub proof fn lemma_render_time_independent(
    cs: Seq<LogComponent>,
    m: LogMessage,
    with_color: bool,
    t1: Seq<char>,
    t2: Seq<char>,
)
    requires
        !contains_time(cs),
    ensures
        render_text(cs, m, with_color, t1) == render_text(cs, m, with_color, t2),
    decreases cs.len(),
{
    if cs.len() > 0 {
        assert(!contains_time(cs.drop_last())) by {
            assert forall|i: int| 0 <= i < cs.drop_last().len() implies !(cs.drop_last()[i]
                is Time) by {
                assert(cs.drop_last()[i] == cs[i]);
                assert(!(cs[i] is Time));
            }
        }
        lemma_render_time_independent(cs.drop_last(), m, with_color, t1, t2);
        assert(!(cs.last() is Time)) by {
            assert(cs[cs.len() - 1] == cs.last());
        }
    }
}

/// Unfolding of `render_text` over the three-slot pipeline
/// `prefix, space, body`.
proof fn lemma_unfold_prefix_spacer_message(m: LogMessage, with_color: bool, t: Seq<char>)
    ensures
        render_text(
            seq![LogComponent::Prefix, LogComponent::Spacer, LogComponent::Message],
            m,
            with_color,
            t,
        ) == component_text(LogComponent::Prefix, m, with_color, t) + seq![' '] + component_text(
            LogComponent::Message,
            m,
            with_color,
            t,
        ),
{
    let cs = seq![LogComponent::Prefix, LogComponent::Spacer, LogComponent::Message];
    let cs01 = cs.drop_last();
    let cs0 = cs01.drop_last();
    assert(cs01 =~= seq![LogComponent::Prefix, LogComponent::Spacer]);
    assert(cs0 =~= seq![LogComponent::Prefix]);
    assert(cs0.drop_last() =~= Seq::<LogComponent>::empty());
    assert(render_text(cs0.drop_last(), m, with_color, t) == Seq::<char>::empty());
    assert(cs0.last() == LogComponent::Prefix);
    assert(cs01.last() == LogComponent::Spacer);
    assert(cs.last() == LogComponent::Message);
    assert(render_text(cs0, m, with_color, t) =~= component_text(
        LogComponent::Prefix,
        m,
        with_color,
        t,
    ));
    assert(render_text(cs01, m, with_color, t) =~= component_text(
        LogComponent::Prefix,
        m,
        with_color,
        t,
    ) + seq![' ']);
    assert(render_text(cs, m, with_color, t) =~= component_text(
        LogComponent::Prefix,
        m,
        with_color,
        t,
    ) + seq![' '] + component_text(LogComponent::Message, m, with_color, t));
}

/// Without colors the pipeline `prefix, space, body` renders the
/// prefix text and the raw message body verbatim, whatever the style.
pub proof fn lemma_render_plain_line(m: LogMessage, t: Seq<char>)
    ensures
        render_text(
            seq![LogComponent::Prefix, LogComponent::Spacer, LogComponent::Message],
            m,
            false,
            t,
        ) == m.log_style.prefix@ + seq![' '] + m.log_message@,
{
    lemma_unfold_prefix_spacer_message(m, false, t);
}

/// With colors on, a style that does not color its message body (as the
/// info, warning and error presets do not) has only its prefix wrapped
/// in the styled form; the body stays the raw text, never colored.
pub proof fn lemma_color_prefix_not_body(m: LogMessage, t: Seq<char>)
    requires
        !m.log_style.color_message,
    ensures
        render_text(
            seq![LogComponent::Prefix, LogComponent::Spacer, LogComponent::Message],
            m,
            true,
            t,
        ) == colored_of(m.log_style.prefix@, m.log_style.color) + seq![' '] + m.log_message@,
{
    lemma_unfold_prefix_spacer_message(m, true, t);
}

/// With colors on, a style that colors its message body (as the fatal
/// preset does) has both the prefix and the body wrapped in the styled
/// form, in the style's one color.
pub proof fn lemma_color_prefix_and_body(m: LogMessage, t: Seq<char>)
    requires
        m.log_style.color_message,
    ensures
        render_text(
            seq![LogComponent::Prefix, LogComponent::Spacer, LogComponent::Message],
            m,
            true,
            t,
        ) == colored_of(m.log_style.prefix@, m.log_style.color) + seq![' '] + colored_of(
            m.log_message@,
            m.log_style.color,
        ),
{
    lemma_unfold_prefix_spacer_message(m, true, t);
}

/// Render a line from an explicit clock reading. Exec counterpart of
/// `render_text`; rendering never fails.
pub fn render_with_time(
    components: &Vec<LogComponent>,
    message: &LogMessage,
    with_color: bool,
    time: &str,
) -> (r: String)
    ensures
        r@ == render_text(components@, *message, with_color, time@),
{
    let mut out = String::new();
    let mut i: usize = 0;
    while i < components.len()
        invariant
            i <= components@.len(),
            out@ == render_text(components@.take(i as int), *message, with_color, time@),
        decreases components@.len() - i,
    {
        let piece = get_component_str(&components[i], message, with_color, time);
        out.append(piece.as_str());
        proof {
            let taken = components@.take(i + 1 as int);
            assert(taken.drop_last() =~= components@.take(i as int));
            assert(taken.last() == components@[i as int]);
        }
        i = i + 1;
    }
    proof {
        assert(components@.take(components@.len() as int) =~= components@);
    }
    out
}

/// The textual contribution of one component, from an explicit clock
/// reading: the prefix (colored iff colors are on), the message body
/// (colored iff colors are on and the style colors its body), the given
/// time, a single space, a newline, or the literal text verbatim.
pub fn get_component_str(
    log_component: &LogComponent,
    message: &LogMessage,
    with_color: bool,
    time: &str,
) -> (r: String)
    ensures
        r@ == component_text(*log_component, *message, with_color, time@),
{
    match log_component {
        LogComponent::Prefix => {
            if with_color {
                colorize(message.log_style.prefix.as_str(), message.log_style.color)
            } else {
                message.log_style.prefix.clone()
            }
        },
        LogComponent::Message => {
            if with_color && message.log_style.color_message {
                colorize(message.log_message.as_str(), message.log_style.color)
            } else {
                message.log_message.clone()
            }
        },
        LogComponent::Time => String::from_str(time),
        LogComponent::Spacer => {
            let r = String::from_str(" ");
            proof {
                reveal_strlit(" ");
                assert(r@ =~= seq![' ']);
            }
            r
        },
        LogComponent::Newline => {
            let r = String::from_str("\n");
            proof {
                reveal_strlit("\n");
                assert(r@ =~= seq!['\n']);
            }
            r
        },
        LogComponent::Literal(s) => s.clone(),
    }
}

/// Render a line from the current wall clock: read the clock once, then
/// render. Apart from the clock reading the output is fully determined by
/// the inputs.
pub fn build_log_string(
    components: &Vec<LogComponent>,
    message: &LogMessage,
    with_color: bool,
) -> (r: String)
    ensures
        exists|t: Seq<char>|
            #[trigger] is_hms(t) && r@ == render_text(components@, *message, with_color, t),
{
    let time = now_hms();
    let r = render_with_time(components, message, with_color, time.as_str());
    proof {
        assert(is_hms(time@) && r@ == render_text(components@, *message, with_color, time@));
    }
    r
}

} // verus!
