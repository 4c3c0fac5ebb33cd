//! What the command line tells the user, as values: each message is a
//! list of lines, each line a list of coloured spans for one of the two
//! output streams.

use crate::cursor::{digit, digit_text};
use vstd::prelude::*;

verus! {

/// The stream that a line is written to.
#[derive(Debug, Clone, Copy, PartialEq, Eq, Structural)]
pub enum Stream {
    Output,
    Error,
}

/// The colour of a span.
#[derive(Debug, Clone, Copy, PartialEq, Eq, Structural)]
pub enum Tone {
    Plain,
    Dimmed,
    Blue,
    BrightBlue,
    BrightRed,
    BrightBlack,
    Red,
    Cyan,
    Yellow,
    Green,
}

/// How grave a message of a resolver is.
#[derive(Debug, Clone, Copy, PartialEq, Eq, Structural)]
pub enum ResolverMessageLevel {
    Debug,
    Error,
    Info,
    Warn,
}

/// A stretch of text in one colour.
#[derive(Debug, PartialEq)]
pub struct Span {
    pub tone: Tone,
    pub text: String,
}

/// One line of output. The line break that ends it is not part of its
/// text.
#[derive(Debug, PartialEq)]
pub struct Line {
    pub stream: Stream,
    pub spans: Vec<Span>,
}

impl Line {
    /// The colours and texts of the spans, in order.
    pub open spec fn shows(&self) -> Seq<(Tone, Seq<char>)> {
        Seq::new(self.spans@.len(), |i: int| (self.spans@[i].tone, self.spans@[i].text@))
    }

    /// Whether the line is `text` in one colour on `stream`.
    pub open spec fn reads(&self, stream: Stream, tone: Tone, text: Seq<char>) -> bool {
        self.stream == stream && self.shows() == seq![(tone, text)]
    }

    /// A line of one span.
    pub fn of(stream: Stream, tone: Tone, text: String) -> (line: Line)
        ensures
            line.reads(stream, tone, text@),
    {
        let mut spans: Vec<Span> = Vec::new();
        spans.push(Span { tone, text });
        let line = Line { stream, spans };
        assert(line.shows() =~= seq![(tone, text@)]);
        line
    }

    /// A line of three spans: plain text around a coloured middle.
    pub fn around(stream: Stream, before: &str, tone: Tone, middle: String, after: &str) -> (line: Line)
        ensures
            line.stream == stream,
            line.shows() == seq![(Tone::Plain, before@), (tone, middle@), (Tone::Plain, after@)],
    {
        let mut spans: Vec<Span> = Vec::new();
        spans.push(Span { tone: Tone::Plain, text: String::from_str(before) });
        spans.push(Span { tone, text: middle });
        spans.push(Span { tone: Tone::Plain, text: String::from_str(after) });
        let line = Line { stream, spans };
        assert(line.shows() =~= seq![(Tone::Plain, before@), (tone, middle@), (Tone::Plain, after@)]);
        line
    }
}

/// The decimal digits of a number.
pub open spec fn decimal(n: nat) -> Seq<char>
    decreases n,
{
    if n < 10 {
        seq![digit(n as u8)]
    } else {
        decimal(n / 10).push(digit((n % 10) as u8))
    }
}

/// Writes a number in decimal digits.
pub fn decimal_text(n: u64) -> (text: String)
    ensures
        text@ == decimal(n as nat),
    decreases n,
{
    if n < 10 {
        String::from_str(digit_text(n as u8))
    } else {
        let text = decimal_text(n / 10).concat(digit_text((n % 10) as u8));
        assert(text@ =~= decimal(n as nat));
        text
    }
}

/// The address of this machine as the messages write it.
pub open spec fn localhost() -> Seq<char> {
    "127.0.0.1"@
}

/// Names the version of the command line tool.
pub fn cli_header(version: &str) -> (line: Line)
    ensures
        line.reads(Stream::Output, Tone::Dimmed, "Grafbase CLI "@ + version@ + "\n"@),
{
    Line::of(Stream::Output, Tone::Dimmed, String::from_str("Grafbase CLI ").concat(version).concat("\n"))
}

/// Whether `line` is empty, on the output stream.
pub open spec fn is_blank(line: &Line) -> bool {
    line.stream == Stream::Output && line.shows().len() == 0
}

/// The lines that tell of a server on `port`.
pub open spec fn tells_of_server(lines: Seq<Line>, port: u16) -> bool {
    let address = "http://"@ + localhost() + ":"@ + decimal(port as nat);
    &&& lines.len() == 3
    &&& lines[0].stream == Stream::Output
    &&& lines[0].shows() == seq![
        (Tone::Plain, "📡 Listening on port "@),
        (Tone::BrightBlue, decimal(port as nat)),
        (Tone::Plain, "\n"@),
    ]
    &&& lines[1].stream == Stream::Output
    &&& lines[1].shows() == seq![
        (Tone::Plain, "- Playground: "@),
        (Tone::BrightBlue, address),
        (Tone::Plain, ""@),
    ]
    &&& lines[2].stream == Stream::Output
    &&& lines[2].shows() == seq![
        (Tone::Plain, "- Endpoint:   "@),
        (Tone::BrightBlue, address + "/graphql"@),
        (Tone::Plain, "\n"@),
    ]
}

/// Whether `line` tells that the port first tried was taken.
pub open spec fn tells_of_taken_port(line: &Line, start_port: u16) -> bool {
    line.stream == Stream::Output && line.shows() == seq![
        (Tone::Plain, "Port "@),
        (Tone::BrightBlue, decimal(start_port as nat)),
        (Tone::Plain, " is unavailable, started on the closest available port"@),
    ]
}

/// Tells that the server has started: after an empty line if resolvers
/// were reported before, and after a note on the port if the server is
/// not on the port first tried.
pub fn start_server(resolvers_reported: bool, port: u16, start_port: u16) -> (lines: Vec<Line>)
    ensures
        ({
            let lead: int = if resolvers_reported {
                1
            } else {
                0
            };
            let note: int = if port != start_port {
                1
            } else {
                0
            };
            &&& lines@.len() == lead + note + 3
            &&& resolvers_reported ==> is_blank(&lines@[0])
            &&& port != start_port ==> tells_of_taken_port(&lines@[lead], start_port)
            &&& tells_of_server(lines@.subrange(lead + note, lines@.len() as int), port)
        }),
{
    let mut lines: Vec<Line> = Vec::new();
    if resolvers_reported {
        lines.push(Line { stream: Stream::Output, spans: Vec::new() });
    }
    if port != start_port {
        lines.push(
            Line::around(
                Stream::Output,
                "Port ",
                Tone::BrightBlue,
                decimal_text(start_port as u64),
                " is unavailable, started on the closest available port",
            ),
        );
    }
    let ghost skipped = lines@.len() as int;
    lines.push(
        Line::around(Stream::Output, "📡 Listening on port ", Tone::BrightBlue, decimal_text(port as u64), "\n"),
    );
    let playground = String::from_str("http://").concat("127.0.0.1").concat(":").concat(
        decimal_text(port as u64).as_str(),
    );
    let endpoint = playground.clone().concat("/graphql");
    lines.push(Line::around(Stream::Output, "- Playground: ", Tone::BrightBlue, playground, ""));
    lines.push(Line::around(Stream::Output, "- Endpoint:   ", Tone::BrightBlue, endpoint, "\n"));
    proof {
        let shown = lines@.subrange(skipped, lines@.len() as int);
        assert(shown[0] == lines@[skipped]);
        assert(shown[1] == lines@[skipped + 1]);
        assert(shown[2] == lines@[skipped + 2]);
    }
    lines
}

/// The place of a new schema below the current directory, written with
/// `separator` between the directories: in the project `name` if one is
/// named.
pub open spec fn schema_place(name: Option<Seq<char>>, separator: Seq<char>) -> Seq<char> {
    match name {
        Some(name) => "."@ + separator + name + separator + "grafbase"@ + separator + "schema.graphql"@,
        None => "."@ + separator + "grafbase"@ + separator + "schema.graphql"@,
    }
}

/// Tells that a project was set up, and where its schema lies.
pub fn project_created(name: Option<&str>, separator: &str) -> (lines: Vec<Line>)
    ensures
        lines@.len() == 2,
        lines@[1].stream == Stream::Output,
        match name {
            Some(name) => {
                &&& lines@[0].reads(
                    Stream::Output,
                    Tone::BrightBlue,
                    "✨ "@ + name@ + " was successfully initialized!"@,
                )
                &&& lines@[1].shows() == seq![
                    (Tone::Plain, "The schema for your new project can be found at "@),
                    (Tone::BrightBlue, schema_place(Some(name@), separator@)),
                    (Tone::Plain, ""@),
                ]
            },
            None => {
                &&& lines@[0].reads(
                    Stream::Output,
                    Tone::BrightBlue,
                    "✨ Your project was successfully set up for Grafbase!"@,
                )
                &&& lines@[1].shows() == seq![
                    (Tone::Plain, "Your new schema can be found at "@),
                    (Tone::BrightBlue, schema_place(None, separator@)),
                    (Tone::Plain, ""@),
                ]
            },
        },
{
    let mut lines: Vec<Line> = Vec::new();
    match name {
        Some(name) => {
            lines.push(
                Line::of(
                    Stream::Output,
                    Tone::BrightBlue,
                    String::from_str("✨ ").concat(name).concat(" was successfully initialized!"),
                ),
            );
            let place = String::from_str(".").concat(separator).concat(name).concat(separator).concat(
                "grafbase",
            ).concat(separator).concat("schema.graphql");
            lines.push(
                Line::around(
                    Stream::Output,
                    "The schema for your new project can be found at ",
                    Tone::BrightBlue,
                    place,
                    "",
                ),
            );
        },
        None => {
            lines.push(
                Line::of(
                    Stream::Output,
                    Tone::BrightBlue,
                    String::from_str("✨ Your project was successfully set up for Grafbase!"),
                ),
            );
            let place = String::from_str(".").concat(separator).concat("grafbase").concat(separator).concat(
                "schema.graphql",
            );
            lines.push(
                Line::around(Stream::Output, "Your new schema can be found at ", Tone::BrightBlue, place, ""),
            );
        },
    }
    lines
}

/// Whether `lines` report a failure: `lead`, the message, and the hint on
/// a line of its own if there is one.
pub open spec fn reports_failure(
    lines: Seq<Line>,
    lead: Seq<char>,
    message: Seq<char>,
    hint: Option<Seq<char>>,
) -> bool {
    &&& lines.len() == if hint is Some {
        2int
    } else {
        1int
    }
    &&& lines[0].reads(Stream::Error, Tone::BrightRed, lead + message)
    &&& hint is Some ==> lines[1].reads(Stream::Error, Tone::BrightBlue, "Hint: "@ + hint.unwrap())
}

/// The views of an optional text.
pub open spec fn shown(text: Option<&str>) -> Option<Seq<char>> {
    match text {
        Some(text) => Some(text@),
        None => None,
    }
}

fn failure(lead: &str, message: &str, hint: Option<&str>) -> (lines: Vec<Line>)
    ensures
        reports_failure(lines@, lead@, message@, shown(hint)),
{
    let mut lines: Vec<Line> = Vec::new();
    lines.push(Line::of(Stream::Error, Tone::BrightRed, String::from_str(lead).concat(message)));
    match hint {
        Some(hint) => {
            lines.push(Line::of(Stream::Error, Tone::BrightBlue, String::from_str("Hint: ").concat(hint)));
        },
        None => {},
    }
    lines
}

/// Reports a failure, with its hint if it has one.
pub fn error(message: &str, hint: Option<&str>) -> (lines: Vec<Line>)
    ensures
        reports_failure(lines@, "Error: "@, message@, shown(hint)),
{
    failure("Error: ", message, hint)
}

/// Says goodbye.
pub fn goodbye() -> (line: Line)
    ensures
        line.reads(Stream::Error, Tone::BrightBlue, "\n👋 See you next time!"@),
{
    Line::of(Stream::Error, Tone::BrightBlue, String::from_str("\n👋 See you next time!"))
}

/// Tells that a resolver is being compiled.
pub fn start_resolver_build(resolver_name: &str) -> (line: Line)
    ensures
        line.stream == Stream::Output,
        line.shows() == seq![
            (Tone::Plain, ""@),
            (Tone::Blue, "wait"@),
            (Tone::Plain, "  - compiling resolver '"@ + resolver_name@ + "'…"@),
        ],
{
    let after = String::from_str("  - compiling resolver '").concat(resolver_name).concat("'…");
    Line::around(Stream::Output, "", Tone::Blue, String::from_str("wait"), after.as_str())
}

/// The time that a build took, in whole milliseconds, as it is shown for
/// builds of less than a second.
pub fn milliseconds_text(milliseconds: u64) -> (text: String)
    ensures
        text@ == decimal(milliseconds as nat) + "ms"@,
{
    decimal_text(milliseconds).concat("ms")
}

/// The time that a build took, as it is shown: in milliseconds for a
/// build of less than a second, and from a second on as the text of its
/// seconds.
pub open spec fn shown_duration(whole_seconds: u64, milliseconds: u32, seconds_text: Seq<char>) -> Seq<char> {
    if whole_seconds == 0 {
        decimal(milliseconds as nat) + "ms"@
    } else {
        seconds_text
    }
}

/// Tells that a resolver was compiled, and how long it took. The time is
/// given as its whole seconds, its milliseconds below the second, and the
/// text of its seconds for a build of a second or more.
pub fn complete_resolver_build(
    resolver_name: &str,
    whole_seconds: u64,
    milliseconds: u32,
    seconds_text: &str,
) -> (line: Line)
    ensures
        line.stream == Stream::Output,
        line.shows() == seq![
            (Tone::Plain, ""@),
            (Tone::Green, "event"@),
            (
                Tone::Plain,
                " - resolver '"@ + resolver_name@ + "' compiled successfully in "@ + shown_duration(
                    whole_seconds,
                    milliseconds,
                    seconds_text@,
                ),
            ),
        ],
{
    let lead = String::from_str(" - resolver '").concat(resolver_name).concat("' compiled successfully in ");
    let after = if whole_seconds == 0 {
        lead.concat(milliseconds_text(milliseconds as u64).as_str())
    } else {
        lead.concat(seconds_text)
    };
    Line::around(Stream::Output, "", Tone::Green, String::from_str("event"), after.as_str())
}

/// The colour for a resolver's message of the given level.
pub open spec fn tone_of(level: ResolverMessageLevel) -> Tone {
    match level {
        ResolverMessageLevel::Debug => Tone::BrightBlack,
        ResolverMessageLevel::Error => Tone::Red,
        ResolverMessageLevel::Info => Tone::Cyan,
        ResolverMessageLevel::Warn => Tone::Yellow,
    }
}

/// Passes on what a resolver logged, in the colour of its level.
pub fn resolver_message(resolver_name: &str, message: &str, level: ResolverMessageLevel) -> (line: Line)
    ensures
        line.reads(Stream::Output, tone_of(level), "["@ + resolver_name@ + "] "@ + message@),
{
    let tone = match level {
        ResolverMessageLevel::Debug => Tone::BrightBlack,
        ResolverMessageLevel::Error => Tone::Red,
        ResolverMessageLevel::Info => Tone::Cyan,
        ResolverMessageLevel::Warn => Tone::Yellow,
    };
    Line::of(Stream::Output, tone, String::from_str("[").concat(resolver_name).concat("] ").concat(message))
}

/// Tells that a change was seen in `path` and the server starts anew.
pub fn reload(path: &str) -> (line: Line)
    ensures
        line.reads(Stream::Output, Tone::Plain, "🔄 Detected a change in "@ + path@ + ", reloading"@),
{
    Line::of(
        Stream::Output,
        Tone::Plain,
        String::from_str("🔄 Detected a change in ").concat(path).concat(", reloading"),
    )
}

/// Tells that the project was reset; where a development server may be
/// left running, also that it must be started anew.
pub fn project_reset(servers_linger: bool) -> (lines: Vec<Line>)
    ensures
        lines@.len() == if servers_linger {
            2int
        } else {
            1int
        },
        lines@[0].reads(Stream::Output, Tone::BrightBlue, "✨ Successfully reset your project!"@),
        servers_linger ==> lines@[1].reads(
            Stream::Output,
            Tone::BrightBlue,
            "If you have a running 'grafbase dev' instance in this project, it will need to be restarted for this change to take effect"@,
        ),
{
    let mut lines: Vec<Line> = Vec::new();
    lines.push(Line::of(Stream::Output, Tone::BrightBlue, String::from_str("✨ Successfully reset your project!")));
    if servers_linger {
        lines.push(
            Line::of(
                Stream::Output,
                Tone::BrightBlue,
                String::from_str(
                    "If you have a running 'grafbase dev' instance in this project, it will need to be restarted for this change to take effect",
                ),
            ),
        );
    }
    lines
}

/// Asks the user to open `url`.
pub fn login(url: &str) -> (line: Line)
    ensures
        line.stream == Stream::Output,
        line.shows() == seq![
            (Tone::Plain, "Please continue by opening the following URL:\n"@),
            (Tone::BrightBlue, url@),
            (Tone::Plain, "\n"@),
        ],
{
    Line::around(
        Stream::Output,
        "Please continue by opening the following URL:\n",
        Tone::BrightBlue,
        String::from_str(url),
        "\n",
    )
}

/// Tells that the user is logged in.
pub fn login_success() -> (line: Line)
    ensures
        line.reads(Stream::Error, Tone::BrightBlue, "\n\n✨ Successfully logged in!"@),
{
    Line::of(Stream::Error, Tone::BrightBlue, String::from_str("\n\n✨ Successfully logged in!"))
}

/// Reports a failure to log in, below whatever the terminal shows.
pub fn login_error(message: &str, hint: Option<&str>) -> (lines: Vec<Line>)
    ensures
        reports_failure(lines@, "\n\nError: "@, message@, shown(hint)),
{
    failure("\n\nError: ", message, hint)
}

/// Tells that the user is logged out.
pub fn logout() -> (line: Line)
    ensures
        line.reads(Stream::Error, Tone::BrightBlue, "✨ Successfully logged out!"@),
{
    Line::of(Stream::Error, Tone::BrightBlue, String::from_str("✨ Successfully logged out!"))
}

/// Tells that the project is being deployed.
pub fn deploy() -> (line: Line)
    ensures
        line.reads(Stream::Error, Tone::BrightBlue, "🕒 Your project is being deployed"@),
{
    Line::of(Stream::Error, Tone::BrightBlue, String::from_str("🕒 Your project is being deployed"))
}

/// Tells that the project was deployed.
pub fn deploy_success() -> (line: Line)
    ensures
        line.reads(Stream::Error, Tone::BrightBlue, "\n✨ Your project has been deployed successfully!"@),
{
    Line::of(
        Stream::Error,
        Tone::BrightBlue,
        String::from_str("\n✨ Your project has been deployed successfully!"),
    )
}

/// Tells that the local project was linked to the project `name`.
pub fn linked(name: &str) -> (line: Line)
    ensures
        line.reads(
            Stream::Error,
            Tone::BrightBlue,
            "\n✨ Successfully linked your local project to "@ + name@ + "!"@,
        ),
{
    Line::of(
        Stream::Error,
        Tone::BrightBlue,
        String::from_str("\n✨ Successfully linked your local project to ").concat(name).concat("!"),
    )
}

/// Tells that the project was unlinked.
pub fn unlinked() -> (line: Line)
    ensures
        line.reads(Stream::Error, Tone::BrightBlue, "✨ Successfully unlinked your project!"@),
{
    Line::of(Stream::Error, Tone::BrightBlue, String::from_str("✨ Successfully unlinked your project!"))
}

/// Tells that the project `name` was created, and lists its endpoints,
/// one line each, in the order given.
pub fn created(name: &str, urls: &Vec<String>) -> (lines: Vec<Line>)
    ensures
        lines@.len() == urls@.len() + 2,
        lines@[0].reads(
            Stream::Output,
            Tone::BrightBlue,
            "\n✨ "@ + name@ + " was successfully created!\n"@,
        ),
        lines@[1].reads(Stream::Output, Tone::BrightBlue, "Endpoints:"@),
        forall|i: int|
            0 <= i < urls@.len() ==> (#[trigger] lines@[i + 2]).reads(
                Stream::Output,
                Tone::BrightBlue,
                "- https://"@ + urls@[i]@,
            ),
{
    let mut lines: Vec<Line> = Vec::new();
    lines.push(
        Line::of(
            Stream::Output,
            Tone::BrightBlue,
            String::from_str("\n✨ ").concat(name).concat(" was successfully created!\n"),
        ),
    );
    lines.push(Line::of(Stream::Output, Tone::BrightBlue, String::from_str("Endpoints:")));
    let mut i: usize = 0;
    while i < urls.len()
        invariant
            i <= urls@.len(),
            lines@.len() == i + 2,
            lines@[0].reads(
                Stream::Output,
                Tone::BrightBlue,
                "\n✨ "@ + name@ + " was successfully created!\n"@,
            ),
            lines@[1].reads(Stream::Output, Tone::BrightBlue, "Endpoints:"@),
            forall|k: int|
                0 <= k < i ==> (#[trigger] lines@[k + 2]).reads(
                    Stream::Output,
                    Tone::BrightBlue,
                    "- https://"@ + urls@[k]@,
                ),
        decreases urls@.len() - i,
    {
        lines.push(
            Line::of(Stream::Output, Tone::BrightBlue, String::from_str("- https://").concat(urls[i].as_str())),
        );
        i = i + 1;
    }
    lines
}

} // verus!
