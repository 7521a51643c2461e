//! Command-line configuration: option parsing through `getopts`, and the
//! verified resolution of positional arguments, defaults and the color
//! override into a run configuration.

use vstd::prelude::*;
use crate::color::{Color, spec_white, spec_hex_color, white, parse_hex_color};

verus! {

/// What a run needs: the input image, the label, the text color and the
/// output directory.
pub struct RunConfig {
    pub image_path: String,
    pub label_text: String,
    pub text_color: Color,
    pub output_dir: String,
}

/// Why a run could not be configured or prepared.
#[derive(Debug)]
pub enum Error {
    /// The command line did not hold exactly two positional arguments.
    WrongArgCount,
    /// The option syntax itself was malformed; the payload is the parser's
    /// description of the fault.
    BadOptionSyntax(String),
    /// The `--color` argument is not a `#RRGGBB` hex color.
    InvalidColor(String),
    /// The font bytes could not be parsed.
    FontParse,
}

impl Error {
    /// A short description of the error, for the top-level reporter; the
    /// variants that carry a payload name it in the text.
    pub fn message(&self) -> (r: String)
        ensures
            *self is WrongArgCount ==> r@ == "expected exactly two arguments: IMAGE_FILE LABEL_TEXT"@,
            *self matches Error::BadOptionSyntax(s) ==> r@ == "malformed options: "@ + s@,
            *self matches Error::InvalidColor(s) ==> r@ == "not a #RRGGBB hex color: "@ + s@,
            *self is FontParse ==> r@ == "the embedded font could not be parsed"@,
    {
        match self {
            Error::WrongArgCount => "expected exactly two arguments: IMAGE_FILE LABEL_TEXT"
                .to_owned(),
            Error::BadOptionSyntax(s) => "malformed options: ".to_owned().concat(s.as_str()),
            Error::InvalidColor(s) => "not a #RRGGBB hex color: ".to_owned().concat(s.as_str()),
            Error::FontParse => "the embedded font could not be parsed".to_owned(),
        }
    }
}

/// The default output directory, `./annotated`.
pub fn default_output_dir() -> (r: String)
    ensures
        r@ == "./annotated"@,
{
    "./annotated".to_owned()
}

/// One option registration: short name, long name, description, hint.
pub type OptReg = (Seq<char>, Seq<char>, Seq<char>, Seq<char>);

/// The registrations an option set holds, in order.
pub uninterp spec fn registered(opts: getopts::Options) -> Seq<OptReg>;

/// The option names that a parse result answers for.
pub uninterp spec fn matches_opts(m: getopts::Matches) -> Set<Seq<char>>;

/// The positional arguments a parse result holds, in order.
pub uninterp spec fn free_of(m: getopts::Matches) -> Seq<Seq<char>>;

/// The argument a parse result holds for the named option, or `None`.
pub uninterp spec fn opt_of(m: getopts::Matches, name: Seq<char>) -> Option<Seq<char>>;

/// What `getopts::Options::parse` returns for the given registrations and
/// argument strings: `None` on an option syntax fault, else the positional
/// arguments and each defined name's value.  The parse is deterministic in
/// these inputs.
pub uninterp spec fn parse_of(regs: Seq<OptReg>, args: Seq<Seq<char>>) -> Option<
    (Seq<Seq<char>>, Map<Seq<char>, Option<Seq<char>>>),
>;

/// What `getopts::Options::usage` renders for the given registrations
/// under the given brief line; deterministic in these inputs.
pub uninterp spec fn usage_of(regs: Seq<OptReg>, brief: Seq<char>) -> Seq<char>;

/// The non-empty short and long names among the registrations.
pub open spec fn defined_of(regs: Seq<OptReg>) -> Set<Seq<char>>
    decreases regs.len(),
{
    if regs.len() == 0 {
        Set::empty()
    } else {
        let rest = defined_of(regs.drop_last());
        let last = regs.last();
        let with_short = if last.0.len() > 0 {
            rest.insert(last.0)
        } else {
            rest
        };
        if last.1.len() > 0 {
            with_short.insert(last.1)
        } else {
            with_short
        }
    }
}

/// The views of a sequence of strings.
pub open spec fn seq_views(v: Seq<String>) -> Seq<Seq<char>> {
    v.map_values(|s: String| s@)
}

/// The view of an optional string.
pub open spec fn opt_view(o: Option<String>) -> Option<Seq<char>> {
    match o {
        Some(s) => Some(s@),
        None => None,
    }
}

#[verifier::external_type_specification]
#[verifier::external_body]
pub struct ExOptions(getopts::Options);

#[verifier::external_type_specification]
#[verifier::external_body]
pub struct ExMatches(getopts::Matches);

#[verifier::external_type_specification]
#[verifier::external_body]
pub struct ExFail(getopts::Fail);

/// Relies on `getopts::Options::new`: a fresh option set with nothing
/// registered.
#[verifier::external_body]
fn options_new() -> (r: getopts::Options)
    ensures
        registered(r) == Seq::<OptReg>::empty(),
{
    getopts::Options::new()
}

/// Relies on `getopts::Options::optopt`: appends a registration for an
/// option taking one argument.  `optopt` panics unless the short name is
/// at most one byte and the long name is not exactly one byte, and a
/// registration with no name at all makes a later parse panic; the
/// preconditions keep all three out (a one-character short name is
/// required to be ASCII so that characters and bytes agree).
#[verifier::external_body]
fn options_optopt(opts: &mut getopts::Options, short: &str, long: &str, desc: &str, hint: &str)
    requires
        short@.len() == 0 || (short@.len() == 1 && (short@[0] as u32) < 128),
        long@.len() != 1,
        short@.len() > 0 || long@.len() > 0,
    ensures
        registered(*final(opts)) == registered(*old(opts)).push((short@, long@, desc@, hint@)),
{
    opts.optopt(short, long, desc, hint);
}

/// Relies on `getopts::Options::parse`: splits the argument strings into
/// free (positional) arguments and option values, or reports a syntax
/// fault; the outcome is a function of the registrations and the
/// arguments, and a successful parse answers for exactly the defined
/// names.
#[verifier::external_body]
fn options_parse(opts: &getopts::Options, args: &[String]) -> (r: Result<
    getopts::Matches,
    getopts::Fail,
>)
    ensures
        r is Ok <==> parse_of(registered(*opts), seq_views(args@)) is Some,
        r matches Ok(m) ==> {
            &&& matches_opts(m) == defined_of(registered(*opts))
            &&& parse_of(registered(*opts), seq_views(args@)) matches Some(p) && free_of(m) == p.0
                && (forall|n: Seq<char>|
                matches_opts(m).contains(n) ==> #[trigger] opt_of(m, n) == p.1[n])
        },
{
    opts.parse(args)
}

/// Relies on `getopts::Options::usage`: renders the usage text for the
/// registered options under the given brief line, deterministically.
#[verifier::external_body]
fn options_usage(opts: &getopts::Options, brief: &str) -> (r: String)
    ensures
        r@ == usage_of(registered(*opts), brief@),
{
    opts.usage(brief)
}

/// Relies on the `getopts::Matches::free` field: the positional arguments,
/// in order.
#[verifier::external_body]
fn matches_free(m: &getopts::Matches) -> (r: Vec<String>)
    ensures
        seq_views(r@) == free_of(*m),
{
    m.free.clone()
}

/// Relies on `getopts::Matches::opt_str`: the argument given to the named
/// option, or `None`.  `opt_str` panics on a name that was never defined
/// (every defined name, short or long, resolves), hence the precondition.
#[verifier::external_body]
fn matches_opt_str(m: &getopts::Matches, name: &str) -> (r: Option<String>)
    requires
        matches_opts(*m).contains(name@),
    ensures
        opt_view(r) == opt_of(*m, name@),
{
    m.opt_str(name)
}

/// Relies on `getopts::Fail`'s `Display` rendering: a description of the
/// option syntax fault.
#[verifier::external_body]
fn fail_message(f: &getopts::Fail) -> String {
    f.to_string()
}

/// Did the command line miss the owed two positional arguments?
pub open spec fn arity_wrong(free: Seq<Seq<char>>) -> bool {
    free.len() != 2
}

/// Was a color given that is no `#RRGGBB` hex color?
pub open spec fn color_wrong(copt: Option<Seq<char>>) -> bool {
    copt matches Some(s) && spec_hex_color(s) is None
}

/// The configuration a well-formed command line resolves to: the two
/// positional arguments as image path and label, the parsed color or
/// opaque white, the given output directory or `./annotated`.
pub open spec fn config_resolved(
    free: Seq<Seq<char>>,
    copt: Option<Seq<char>>,
    oopt: Option<Seq<char>>,
    c: RunConfig,
) -> bool {
    &&& c.image_path@ == free[0]
    &&& c.label_text@ == free[1]
    &&& (match copt {
        Some(s) => Some(c.text_color) == spec_hex_color(s),
        None => c.text_color == spec_white(),
    })
    &&& (match oopt {
        Some(d) => c.output_dir@ == d,
        None => c.output_dir@ == "./annotated"@,
    })
}

/// Resolve the parser's output into a run configuration.
///
/// Exactly two positional arguments are owed, the image path and the label
/// text, in that order; any other count is [`Error::WrongArgCount`].  A
/// given color must be a `#RRGGBB` hex string, else
/// [`Error::InvalidColor`]; omitted, the text color defaults to opaque
/// white.  An omitted output directory defaults to `./annotated`.
pub fn resolve_config(free: Vec<String>, color_opt: Option<String>, outdir_opt: Option<String>)
    -> (r: Result<RunConfig, Error>)
    ensures
        arity_wrong(seq_views(free@)) ==> (r matches Err(e) && e is WrongArgCount),
        !arity_wrong(seq_views(free@)) && color_wrong(opt_view(color_opt)) ==> (r matches Err(e)
            && e is InvalidColor),
        !arity_wrong(seq_views(free@)) && !color_wrong(opt_view(color_opt)) ==> (r matches Ok(c)
            && config_resolved(seq_views(free@), opt_view(color_opt), opt_view(outdir_opt), c)),
        r matches Err(e) ==> (e is WrongArgCount || e is InvalidColor),
{
    proof {
        assert(seq_views(free@).len() == free@.len());
        assert(forall|i: int| 0 <= i < free@.len() ==> seq_views(free@)[i] == free@[i]@);
    }
    if free.len() != 2 {
        return Err(Error::WrongArgCount);
    }
    let text_color: Color = match &color_opt {
        Some(s) => {
            match parse_hex_color(s.as_str()) {
                Some(c) => c,
                None => {
                    return Err(Error::InvalidColor(s.clone()));
                },
            }
        },
        None => white(),
    };
    let output_dir: String = match outdir_opt {
        Some(d) => d,
        None => default_output_dir(),
    };
    let image_path = free[0].clone();
    let label_text = free[1].clone();
    Ok(RunConfig { image_path, label_text, text_color, output_dir })
}

/// The tool's registrations: `-o`/`--output-dir` and `-c`/`--color`, each
/// taking one argument.
pub open spec fn tool_registrations() -> Seq<OptReg> {
    seq![
        ("o"@, "output-dir"@, "directory to save the annotated image in"@, "DIR"@),
        ("c"@, "color"@, "set the color of the label text (specified in HEX)"@, "COLOR"@),
    ]
}

/// The brief line above the usage text.
pub open spec fn spec_brief(program: Seq<char>) -> Seq<char> {
    "Usage: "@ + program + " IMAGE_FILE LABEL_TEXT [options]"@
}

proof fn lemma_tool_opts_defined()
    ensures
        defined_of(tool_registrations()).contains("c"@),
        defined_of(tool_registrations()).contains("o"@),
{
    reveal_strlit("c");
    reveal_strlit("o");
    reveal_strlit("output-dir");
    reveal_strlit("color");
    reveal_with_fuel(defined_of, 4);
    let regs = tool_registrations();
    let r1 = regs.drop_last();
    assert(r1.drop_last() =~= Seq::<OptReg>::empty());
    assert(r1.last() == ("o"@, "output-dir"@, "directory to save the annotated image in"@, "DIR"@));
    assert(defined_of(r1).contains("o"@));
    assert(defined_of(regs).contains("c"@));
    assert(defined_of(regs).contains("o"@));
}

/// The usage text for the tool's registrations, under the brief line
/// `Usage: <program> IMAGE_FILE LABEL_TEXT [options]`.
pub fn usage_text(program: &str) -> (r: String)
    ensures
        r@ == usage_of(tool_registrations(), spec_brief(program@)),
{
    let opts = make_options();
    let brief = "Usage: ".to_owned().concat(program).concat(" IMAGE_FILE LABEL_TEXT [options]");
    options_usage(&opts, brief.as_str())
}

/// The tool's option set, holding exactly [`tool_registrations`].
fn make_options() -> (opts: getopts::Options)
    ensures
        registered(opts) == tool_registrations(),
{
    proof {
        reveal_strlit("o");
        reveal_strlit("c");
        reveal_strlit("output-dir");
        reveal_strlit("color");
    }
    let mut opts = options_new();
    options_optopt(&mut opts, "o", "output-dir", "directory to save the annotated image in", "DIR");
    options_optopt(&mut opts, "c", "color", "set the color of the label text (specified in HEX)", "COLOR");
    proof {
        assert(registered(opts) =~= tool_registrations());
    }
    opts
}

/// Parse the command line (the arguments after the program name) into a
/// run configuration.
///
/// An option syntax fault is exactly [`Error::BadOptionSyntax`]; whatever
/// `getopts` hands back for a well-formed command line is resolved as
/// [`resolve_config`] states, over the parse's positional arguments and
/// its `color` and `output-dir` values.
pub fn parse_args(args: &[String]) -> (r: Result<RunConfig, Error>)
    ensures
        (r matches Err(e) && e is BadOptionSyntax) <==> parse_of(
            tool_registrations(),
            seq_views(args@),
        ) is None,
        r matches Err(e) ==> (e is WrongArgCount || e is InvalidColor || e is BadOptionSyntax),
        parse_of(tool_registrations(), seq_views(args@)) matches Some(p) ==> {
            &&& (arity_wrong(p.0) ==> (r matches Err(e) && e is WrongArgCount))
            &&& (!arity_wrong(p.0) && color_wrong(p.1["c"@]) ==> (r matches Err(e)
                && e is InvalidColor))
            &&& (!arity_wrong(p.0) && !color_wrong(p.1["c"@]) ==> (r matches Ok(c)
                && config_resolved(p.0, p.1["c"@], p.1["o"@], c)))
        },
{
    let opts = make_options();
    match options_parse(&opts, args) {
        Ok(m) => {
            proof {
                lemma_tool_opts_defined();
            }
            let free = matches_free(&m);
            let color_opt = matches_opt_str(&m, "c");
            let outdir_opt = matches_opt_str(&m, "o");
            proof {
                let p = parse_of(tool_registrations(), seq_views(args@)).unwrap();
                assert(seq_views(free@) == p.0);
                assert(opt_view(color_opt) == p.1["c"@]);
                assert(opt_view(outdir_opt) == p.1["o"@]);
            }
            resolve_config(free, color_opt, outdir_opt)
        },
        Err(f) => Err(Error::BadOptionSyntax(fail_message(&f))),
    }
}

} // verus!
