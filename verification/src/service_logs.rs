//! The lines the tool prints about services: each service's name in a colour
//! of its own, picked from a hash of the name, then `->` and the message.
use std::collections::hash_map::DefaultHasher;
use std::hash::Hasher;
use vstd::prelude::*;
use vstd::std_specs::hash::DefaultHasherAdditionalSpecFns;

verus! {

/// The colours service names are printed in.
#[derive(Clone, Copy, Debug, PartialEq, Eq)]
pub enum ServiceColor {
    Green,
    Blue,
    Yellow,
    Cyan,
    Magenta,
}

/// The colours in the order a hash picks them from.
pub open spec fn colors() -> Seq<ServiceColor> {
    seq![
        ServiceColor::Green,
        ServiceColor::Blue,
        ServiceColor::Yellow,
        ServiceColor::Cyan,
        ServiceColor::Magenta,
    ]
}

/// The ANSI foreground code of a colour: 32 green, 34 blue, 33 yellow, 36 cyan,
/// 35 magenta (and 31 red, for warnings).
pub open spec fn ansi_code(color: ServiceColor) -> Seq<char> {
    match color {
        ServiceColor::Green => "32"@,
        ServiceColor::Blue => "34"@,
        ServiceColor::Yellow => "33"@,
        ServiceColor::Cyan => "36"@,
        ServiceColor::Magenta => "35"@,
    }
}

/// `text` between the escape that sets a foreground colour and the one that
/// resets it.
pub open spec fn ansi_painted(code: Seq<char>, text: Seq<char>) -> Seq<char> {
    "\u{1b}["@ + code + "m"@ + text + "\u{1b}[39m"@
}

/// `text` in red.
pub open spec fn red_text(text: Seq<char>) -> Seq<char> {
    ansi_painted("31"@, text)
}

/// `text` in green.
pub open spec fn green_text(text: Seq<char>) -> Seq<char> {
    ansi_painted("32"@, text)
}

/// Calls owo-colors' `green()` and renders it: the text between `ESC[32m` and
/// `ESC[39m`, as owo-colors' `FgColorDisplay` writes it.
#[verifier::external_body]
fn paint_green(text: &str) -> (res: String)
    ensures
        res@ == ansi_painted("32"@, text@),
{
    owo_colors::OwoColorize::green(&text).to_string()
}

/// Calls owo-colors' `blue()` and renders it: the text between `ESC[34m` and `ESC[39m`.
#[verifier::external_body]
fn paint_blue(text: &str) -> (res: String)
    ensures
        res@ == ansi_painted("34"@, text@),
{
    owo_colors::OwoColorize::blue(&text).to_string()
}

/// Calls owo-colors' `yellow()` and renders it: the text between `ESC[33m` and `ESC[39m`.
#[verifier::external_body]
fn paint_yellow(text: &str) -> (res: String)
    ensures
        res@ == ansi_painted("33"@, text@),
{
    owo_colors::OwoColorize::yellow(&text).to_string()
}

/// Calls owo-colors' `cyan()` and renders it: the text between `ESC[36m` and `ESC[39m`.
#[verifier::external_body]
fn paint_cyan(text: &str) -> (res: String)
    ensures
        res@ == ansi_painted("36"@, text@),
{
    owo_colors::OwoColorize::cyan(&text).to_string()
}

/// Calls owo-colors' `magenta()` and renders it: the text between `ESC[35m` and `ESC[39m`.
#[verifier::external_body]
fn paint_magenta(text: &str) -> (res: String)
    ensures
        res@ == ansi_painted("35"@, text@),
{
    owo_colors::OwoColorize::magenta(&text).to_string()
}

/// Calls owo-colors' `red()` and renders it: the text between `ESC[31m` and `ESC[39m`.
#[verifier::external_body]
fn paint_red(text: &str) -> (res: String)
    ensures
        res@ == ansi_painted("31"@, text@),
{
    owo_colors::OwoColorize::red(&text).to_string()
}

/// The state a `DefaultHasher` in state `state` reaches when a text is hashed
/// into it with `str`'s `Hash` impl.
pub uninterp spec fn hashed_str(state: Seq<Seq<u8>>, text: Seq<char>) -> Seq<Seq<u8>>;

/// Calls `<str as Hash>::hash`, feeding a text into a hasher.
///
/// The contract claims only that the hasher's new state is a function of its
/// old state and the text, named `hashed_str`; the bytes `str` writes are
/// std's own.
#[verifier::external_body]
fn hash_str_into(text: &str, hasher: &mut DefaultHasher)
    ensures
        final(hasher)@ == hashed_str(old(hasher)@, text@),
{
    std::hash::Hash::hash(text, hasher)
}

/// The hash of a text with a fresh `DefaultHasher`.
pub open spec fn text_hash(text: Seq<char>) -> u64 {
    DefaultHasher::spec_finish(hashed_str(Seq::<Seq<u8>>::empty(), text))
}

fn hash_text(text: &str) -> (res: u64)
    ensures
        res == text_hash(text@),
{
    let mut hasher = DefaultHasher::new();
    hash_str_into(text, &mut hasher);
    hasher.finish()
}

/// What `format!("{:?}", s)` gives for a `str`: the text quoted, with
/// characters escaped as `char::escape_debug` does.
pub uninterp spec fn str_debug(text: Seq<char>) -> Seq<char>;

/// Printable ASCII with no quote or backslash: characters `str`'s `Debug`
/// leaves as they are.
pub open spec fn plain_ascii(text: Seq<char>) -> bool {
    forall|i: int|
        0 <= i < text.len() ==> ' ' <= #[trigger] text[i] <= '~' && text[i] != '"' && text[i]
            != '\\' && text[i] != '\''
}

/// Formats a text with `{:?}`. As `str`'s `Debug` is documented to write the
/// text in double quotes, escaping only what `char::escape_debug` escapes, a
/// text of plain printable ASCII comes out as itself in quotes; of other texts
/// the contract claims only that the result is a function of the text.
#[verifier::external_body]
fn debug_text(text: &str) -> (res: String)
    ensures
        res@ == str_debug(text@),
        plain_ascii(text@) ==> res@ == "\""@ + text@ + "\""@,
{
    format!("{:?}", text)
}

impl ServiceColor {
    /// `text` in this colour.
    pub fn paint(&self, text: &str) -> (res: String)
        ensures
            res@ == ansi_painted(ansi_code(*self), text@),
    {
        match self {
            ServiceColor::Green => paint_green(text),
            ServiceColor::Blue => paint_blue(text),
            ServiceColor::Yellow => paint_yellow(text),
            ServiceColor::Cyan => paint_cyan(text),
            ServiceColor::Magenta => paint_magenta(text),
        }
    }
}

/// The colour at a position of `colors()`.
pub fn color_at(idx: usize) -> (res: ServiceColor)
    requires
        idx < 5,
    ensures
        res == colors()[idx as int],
{
    if idx == 0 {
        ServiceColor::Green
    } else if idx == 1 {
        ServiceColor::Blue
    } else if idx == 2 {
        ServiceColor::Yellow
    } else if idx == 3 {
        ServiceColor::Cyan
    } else {
        ServiceColor::Magenta
    }
}

/// The colour of a name: the hash of the name, as a `usize`, modulo the number
/// of colours.
pub open spec fn color_of(text: Seq<char>) -> ServiceColor {
    colors()[((text_hash(text) as usize) % 5) as int]
}

/// A name in its own colour.
pub fn hash_to_colored_string(to_be_colored_string: &str) -> (res: String)
    ensures
        res@ == ansi_painted(ansi_code(color_of(to_be_colored_string@)), to_be_colored_string@),
{
    let h = hash_text(to_be_colored_string);
    let idx = (h as usize) % 5;
    let str_color = color_at(idx);
    str_color.paint(to_be_colored_string)
}

/// A line of the form `<label> -> <message>`.
pub open spec fn log_line(label: Seq<char>, message: Seq<char>) -> Seq<char> {
    label + " -> "@ + message
}

/// The line about a service with a message: the name in its colour, then the
/// message quoted.
pub open spec fn service_line(service_name: Seq<char>, message: Seq<char>) -> Seq<char> {
    log_line(
        ansi_painted(ansi_code(color_of(service_name)), service_name),
        str_debug(message),
    )
}

/// The line about a service and a message written in full by the caller (a
/// build or pull progress record): the name in its colour, then the record.
pub fn service_logs(service_name: &str, service_log: &str) -> (res: String)
    ensures
        res@ == log_line(
            ansi_painted(ansi_code(color_of(service_name@)), service_name@),
            service_log@,
        ),
{
    hash_to_colored_string(service_name).concat(" -> ").concat(service_log)
}

/// The line about a service and a message.
pub fn service_logs_messages(service_name: &str, service_log: &str) -> (res: String)
    ensures
        res@ == service_line(service_name@, service_log@),
{
    let message = debug_text(service_log);
    hash_to_colored_string(service_name).concat(" -> ").concat(message.as_str())
}

/// The line that a service has started.
pub fn service_started(service_name: &str, service_log: String) -> (res: String)
    ensures
        res@ == service_line(service_name@, service_log@),
{
    service_logs_messages(service_name, service_log.as_str())
}

/// The line about an error of a service.
pub fn show_service_error_logs(service_name: &str, error_message: &str) -> (res: String)
    ensures
        res@ == service_line(service_name@, error_message@),
{
    service_logs_messages(service_name, error_message)
}

/// The line about a pulled image and a progress record written by the caller.
pub fn show_pulled_image_specific_logs(image_name: &str, data: &str) -> (res: String)
    ensures
        res@ == log_line(ansi_painted(ansi_code(color_of(image_name@)), image_name@), data@),
{
    service_logs(image_name, data)
}

/// The line that a container was stopped or removed: its id in red.
pub fn service_stop_or_delete_message(container_id: &str, service_log: &str) -> (res: String)
    ensures
        res@ == log_line(red_text(container_id@), str_debug(service_log@)),
{
    let message = debug_text(service_log);
    paint_red(container_id).concat(" -> ").concat(message.as_str())
}

/// A general message about an id, the id in green.
pub fn general_message(id: &str, message: &str) -> (res: String)
    ensures
        res@ == log_line(green_text(id@), str_debug(message@)),
{
    let m = debug_text(message);
    paint_green(id).concat(" -> ").concat(m.as_str())
}

/// A general error about an id, the id in red.
pub fn general_error_message(id: &str, message: &str) -> (res: String)
    ensures
        res@ == log_line(red_text(id@), str_debug(message@)),
{
    let m = debug_text(message);
    paint_red(id).concat(" -> ").concat(m.as_str())
}

/// The same name always gets the same colour, and that colour is one of the
/// five service colours.
pub proof fn law_same_name_same_color(a: Seq<char>, b: Seq<char>)
    requires
        a == b,
    ensures
        color_of(a) == color_of(b),
        colors().contains(color_of(a)),
{
    let i = ((text_hash(a) as usize) % 5) as int;
    assert(0 <= i < 5);
    assert(colors()[i] == color_of(a));
}

/// A log line shows its label, then ` -> `, then its message, whole: it begins
/// with the label and ends with the message. A painted text holds the text
/// itself between the two escapes.
pub proof fn law_log_line_shows_label_and_message(label: Seq<char>, message: Seq<char>, code: Seq<char>, text: Seq<char>)
    ensures
        log_line(label, message).len() == label.len() + 4 + message.len(),
        log_line(label, message).subrange(0, label.len() as int) == label,
        log_line(label, message).subrange(
            label.len() as int + 4,
            log_line(label, message).len() as int,
        ) == message,
        ansi_painted(code, text).subrange(
            3 + code.len() as int,
            3 + code.len() as int + text.len() as int,
        ) == text,
{
    reveal_strlit(" -> ");
    reveal_strlit("\u{1b}[");
    reveal_strlit("m");
    reveal_strlit("\u{1b}[39m");
    let l = log_line(label, message);
    assert(l.subrange(0, label.len() as int) =~= label);
    assert(l.subrange(label.len() as int + 4, l.len() as int) =~= message);
    let a = ansi_painted(code, text);
    assert(a.subrange(3 + code.len() as int, 3 + code.len() as int + text.len() as int) =~= text);
}

} // verus!
