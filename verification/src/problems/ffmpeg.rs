//! A problem that tunes the encoding options of `ffmpeg` (libx264) for the best SSIM.
use vstd::prelude::*;
use vstd::string::StringExecFns;
use crate::text::{concat, decimal, i64_to_string, join, join_strings, nth_field, signed_decimal, split_nth, u64_to_string, views};
use crate::error::ErrorKind;
use crate::domain::{choice_texts, boolean_var, choices_var, continuous_var, discrete_var, is_categorical_var, is_continuous_var, is_discrete_var, variable_valid, Distribution, RangeSpec, VariableSpec};

verus! {

/// Recipe of `FfmpegProblem`.
#[derive(Debug)]
pub struct FfmpegProblemRecipe {
    /// Path of the input video.
    pub input_video_path: String,
    /// Duration of the encoding in seconds; when absent, the video's own duration is used.
    pub duration: Option<u64>,
    /// Target bitrate (the `-vb` option).
    pub bitrate: Option<String>,
    /// Output resolution (the `-s` option).
    pub resolution: Option<String>,
}

/// A duration of at least one second, in whole seconds.
pub open spec fn clamp_duration(seconds: u64) -> u64 {
    if seconds < 1 { 1 } else { seconds }
}

impl FfmpegProblemRecipe {
    /// The encoding duration in seconds when the recipe gives one: never below one second.
    ///
    /// `None` means the duration has to be taken from the video itself.
    pub fn given_duration(&self) -> (res: Option<u64>)
        ensures
            res == match self.duration {
                Some(s) => Some(clamp_duration(s)),
                None => None::<u64>,
            },
    {
        match self.duration {
            Some(s) => Some(duration_seconds(s)),
            None => None,
        }
    }
}

/// Turns a number of seconds into the encoding duration: at least one second.
pub fn duration_seconds(seconds: u64) -> (res: u64)
    ensures
        res == clamp_duration(seconds),
{
    if seconds < 1 { 1 } else { seconds }
}

/// The `ffmpeg` problem.
#[derive(Debug)]
pub struct FfmpegProblem {
    /// Path of the input video.
    pub input_video_path: String,
    /// Version of `ffmpeg`.
    pub version: String,
    /// Duration of the encoding in seconds.
    pub duration: u64,
    /// Target bitrate.
    pub bitrate: Option<String>,
    /// Output resolution.
    pub resolution: Option<String>,
}

/// Evaluator of `FfmpegProblem`.
#[derive(Debug)]
pub struct FfmpegEvaluator {
    /// Path of the input video.
    pub input_video_path: String,
    /// Target bitrate.
    pub bitrate: Option<String>,
    /// Output resolution.
    pub resolution: Option<String>,
}

fn clone_opt(s: &Option<String>) -> (res: Option<String>)
    ensures
        res == *s,
{
    match s {
        Some(v) => Some(v.clone()),
        None => None,
    }
}

impl FfmpegProblem {
    /// Makes the problem for the given recipe, `ffmpeg` version and duration in seconds.
    pub fn new(recipe: &FfmpegProblemRecipe, version: String, duration: u64) -> (res: Self)
        ensures
            res.input_video_path == recipe.input_video_path,
            res.version == version,
            res.duration == duration,
            res.bitrate == recipe.bitrate,
            res.resolution == recipe.resolution,
    {
        FfmpegProblem {
            input_video_path: recipe.input_video_path.clone(),
            version,
            duration,
            bitrate: clone_opt(&recipe.bitrate),
            resolution: clone_opt(&recipe.resolution),
        }
    }

    /// The version of `ffmpeg` the problem runs.
    pub fn version(&self) -> (res: &str)
        ensures
            res@ == self.version@,
    {
        self.version.as_str()
    }

    /// The evaluation expense: the duration of the encoding in seconds.
    pub fn duration(&self) -> (res: u64)
        ensures
            res == self.duration,
    {
        self.duration
    }

    /// Creates an evaluator that encodes the same video with the same output settings.
    pub fn create_evaluator(&self) -> (res: FfmpegEvaluator)
        ensures
            res.input_video_path == self.input_video_path,
            res.bitrate == self.bitrate,
            res.resolution == self.resolution,
    {
        FfmpegEvaluator {
            input_video_path: self.input_video_path.clone(),
            bitrate: clone_opt(&self.bitrate),
            resolution: clone_opt(&self.resolution),
        }
    }
}

/// The values of the 31 parameters of the problem, in domain order.
///
/// Continuous values are held as the text that formatting them gives.
#[derive(Debug)]
pub struct FfmpegParams {
    pub refs: i64,
    pub qcomp: String,
    pub qdiff: i64,
    pub me_range: i64,
    pub b_adapt: i64,
    pub subme: i64,
    pub rc_lookahead: i64,
    pub scenecut: i64,
    pub trellis: i64,
    pub psy_rd_0: String,
    pub psy_rd_1: String,
    /// `p8x8`, `p4x4`, `b8x8`, `i8x8`, `i4x4`.
    pub partitions: Vec<bool>,
    /// Index into `dia`, `hex`, `umh`, `esa`.
    pub me: usize,
    /// Index into `none`, `spatial`, `temporal`, `auto`.
    pub direct: usize,
    pub deblock: bool,
    pub deblock_alpha: i64,
    pub deblock_beta: i64,
    /// `b-pyramid`, `no-cabac`, `mixed-refs`, `no-chroma-me`, `8x8dct`, `no-fast-pskip`,
    /// `no-dct-decimate`, `deadzone-inter`, `deadzone-intra`, `nr`.
    pub flags: Vec<bool>,
}

pub open spec fn partition_names() -> Seq<Seq<char>> {
    seq!["p8x8"@, "p4x4"@, "b8x8"@, "i8x8"@, "i4x4"@]
}

pub open spec fn flag_names() -> Seq<Seq<char>> {
    seq![
        "b-pyramid"@,
        "no-cabac"@,
        "mixed-refs"@,
        "no-chroma-me"@,
        "8x8dct"@,
        "no-fast-pskip"@,
        "no-dct-decimate"@,
        "deadzone-inter"@,
        "deadzone-intra"@,
        "nr"@,
    ]
}

pub open spec fn me_names() -> Seq<Seq<char>> {
    seq!["dia"@, "hex"@, "umh"@, "esa"@]
}

pub open spec fn direct_names() -> Seq<Seq<char>> {
    seq!["none"@, "spatial"@, "temporal"@, "auto"@]
}

/// The names whose flag is set, among the first `n` pairs of `flags` and `names`.
pub open spec fn selected(flags: Seq<bool>, names: Seq<Seq<char>>, n: nat) -> Seq<Seq<char>>
    decreases n,
{
    if n == 0 {
        Seq::empty()
    } else {
        let prev = selected(flags, names, (n - 1) as nat);
        if flags[n - 1] {
            prev.push(names[n - 1])
        } else {
            prev
        }
    }
}

/// The names whose flag is set, pairing flags and names up to the shorter of the two.
pub open spec fn selected_names(flags: Seq<bool>, names: Seq<Seq<char>>) -> Seq<Seq<char>> {
    selected(flags, names, if flags.len() < names.len() { flags.len() } else { names.len() })
}

/// A `-key value` option.
pub open spec fn opt(key: Seq<char>, value: Seq<char>) -> Seq<Seq<char>> {
    seq![seq!['-'] + key, value]
}

pub open spec fn opt_if(key: Seq<char>, value: Option<String>) -> Seq<Seq<char>> {
    match value {
        Some(v) => opt(key, v@),
        None => Seq::empty(),
    }
}

/// The libx264 options of the parameters, before they are joined with `:`.
pub open spec fn x264_options(p: FfmpegParams) -> Seq<Seq<char>> {
    let parts = selected_names(p.partitions@, partition_names());
    let base = seq![
        "b-adapt="@ + signed_decimal(p.b_adapt as int),
        "subme="@ + signed_decimal(p.subme as int),
        "rc-lookahead="@ + signed_decimal(p.rc_lookahead as int),
        "scenecut="@ + signed_decimal(p.scenecut as int),
        "trellis="@ + signed_decimal(p.trellis as int),
    ];
    let with_psy = if p.trellis > 0 {
        base.push("psy-rd="@ + p.psy_rd_0@ + ","@ + p.psy_rd_1@)
    } else {
        base
    };
    let with_parts = if parts.len() == 0 {
        with_psy.push("partitions=none"@)
    } else {
        with_psy.push("partitions="@ + join(parts, ","@))
    };
    let with_me = with_parts.push("me="@ + me_names()[p.me as int]).push(
        "direct="@ + direct_names()[p.direct as int],
    );
    let with_deblock = if p.deblock {
        with_me.push(
            "deblock="@ + signed_decimal(p.deblock_alpha as int) + ","@ + signed_decimal(
                p.deblock_beta as int,
            ),
        )
    } else {
        with_me.push("no-deblock"@)
    };
    with_deblock + selected_names(p.flags@, flag_names())
}

/// The command line arguments of `ffmpeg` for encoding the video with the given parameters.
pub open spec fn ffmpeg_command(
    p: FfmpegParams,
    input_video_path: Seq<char>,
    duration: u64,
    bitrate: Option<String>,
    resolution: Option<String>,
) -> Seq<Seq<char>> {
    seq!["-y"@] + opt("t"@, decimal(duration as nat)) + opt("i"@, input_video_path) + opt(
        "tune"@,
        "ssim"@,
    ) + opt("ssim"@, "1"@) + opt_if("vb"@, bitrate) + opt_if("s"@, resolution) + seq!["-an"@]
        + opt("refs"@, signed_decimal(p.refs as int)) + opt("qcomp"@, p.qcomp@) + opt(
        "qdiff"@,
        signed_decimal(p.qdiff as int),
    ) + opt("me_range"@, signed_decimal(p.me_range as int)) + opt(
        "x264opts"@,
        join(x264_options(p), ":"@),
    ) + opt("vcodec"@, "libx264"@) + opt("f"@, "null"@) + seq!["-"@]
}

fn push(args: &mut Vec<String>, s: String)
    ensures
        views(final(args)@) == views(old(args)@).push(s@),
{
    args.push(s);
    assert(views(args@) =~= views(old(args)@).push(s@));
}

fn push_opt(args: &mut Vec<String>, key: &str, value: String)
    ensures
        views(final(args)@) == views(old(args)@) + opt(key@, value@),
{
    proof {
        reveal_strlit("-");
        assert("-"@ =~= seq!['-']);
    }
    push(args, concat("-", key));
    push(args, value);
    assert(views(args@) =~= views(old(args)@) + opt(key@, value@));
}

fn select(flags: &Vec<bool>, names: &Vec<String>) -> (res: Vec<String>)
    ensures
        views(res@) == selected_names(flags@, views(names@)),
{
    let n = if flags.len() < names.len() { flags.len() } else { names.len() };
    let mut res: Vec<String> = Vec::new();
    let mut i: usize = 0;
    while i < n
        invariant
            i <= n,
            n == (if flags@.len() < names@.len() { flags@.len() } else { names@.len() }),
            views(res@) == selected(flags@, views(names@), i as nat),
        decreases n - i,
    {
        if flags[i] {
            push(&mut res, names[i].clone());
        }
        i = i + 1;
    }
    res
}

fn literals(xs: &[&str]) -> (res: Vec<String>)
    ensures
        views(res@) == xs@.map_values(|s: &str| s@),
{
    let mut res: Vec<String> = Vec::new();
    let mut i: usize = 0;
    while i < xs.len()
        invariant
            i <= xs@.len(),
            views(res@) == xs@.take(i as int).map_values(|s: &str| s@),
        decreases xs.len() - i,
    {
        push(&mut res, xs[i].to_owned());
        assert(xs@.take(i + 1) == xs@.take(i as int).push(xs@[i as int]));
        assert(xs@.take(i + 1).map_values(|s: &str| s@) =~= xs@.take(i as int).map_values(|s: &str| s@).push(xs@[i as int]@));
        i = i + 1;
    }
    assert(xs@.take(xs@.len() as int) == xs@);
    res
}

/// Builds the libx264 options of the parameters.
pub fn x264opts(p: &FfmpegParams) -> (res: Vec<String>)
    requires
        p.me < 4,
        p.direct < 4,
    ensures
        views(res@) == x264_options(*p),
{
    let mut opts: Vec<String> = Vec::new();
    push(&mut opts, concat("b-adapt=", i64_to_string(p.b_adapt).as_str()));
    push(&mut opts, concat("subme=", i64_to_string(p.subme).as_str()));
    push(&mut opts, concat("rc-lookahead=", i64_to_string(p.rc_lookahead).as_str()));
    push(&mut opts, concat("scenecut=", i64_to_string(p.scenecut).as_str()));
    push(&mut opts, concat("trellis=", i64_to_string(p.trellis).as_str()));
    if p.trellis > 0 {
        let mut s = concat("psy-rd=", p.psy_rd_0.as_str());
        s.append(",");
        s.append(p.psy_rd_1.as_str());
        push(&mut opts, s);
    }
    let partition_names_vec = literals(&["p8x8", "p4x4", "b8x8", "i8x8", "i4x4"]);
    assert(views(partition_names_vec@) =~= partition_names());
    let partitions = select(&p.partitions, &partition_names_vec);
    if partitions.len() == 0 {
        push(&mut opts, "partitions=none".to_owned());
    } else {
        push(&mut opts, concat("partitions=", join_strings(&partitions, ",").as_str()));
    }
    let me = if p.me == 0 { "dia" } else if p.me == 1 { "hex" } else if p.me == 2 { "umh" } else { "esa" };
    push(&mut opts, concat("me=", me));
    let direct = if p.direct == 0 {
        "none"
    } else if p.direct == 1 {
        "spatial"
    } else if p.direct == 2 {
        "temporal"
    } else {
        "auto"
    };
    push(&mut opts, concat("direct=", direct));
    if p.deblock {
        let mut s = concat("deblock=", i64_to_string(p.deblock_alpha).as_str());
        s.append(",");
        s.append(i64_to_string(p.deblock_beta).as_str());
        push(&mut opts, s);
    } else {
        push(&mut opts, "no-deblock".to_owned());
    }
    let flag_names_vec = literals(
        &[
            "b-pyramid",
            "no-cabac",
            "mixed-refs",
            "no-chroma-me",
            "8x8dct",
            "no-fast-pskip",
            "no-dct-decimate",
            "deadzone-inter",
            "deadzone-intra",
            "nr",
        ],
    );
    assert(views(flag_names_vec@) =~= flag_names());
    let flags = select(&p.flags, &flag_names_vec);
    let ghost before = views(opts@);
    let mut i: usize = 0;
    while i < flags.len()
        invariant
            i <= flags@.len(),
            views(opts@) == before + views(flags@).take(i as int),
        decreases flags.len() - i,
    {
        push(&mut opts, flags[i].clone());
        assert(views(flags@).take(i + 1) == views(flags@).take(i as int).push(flags@[i as int]@));
        i = i + 1;
    }
    assert(views(flags@).take(flags@.len() as int) == views(flags@));
    assert(views(opts@) =~= x264_options(*p));
    opts
}

/// Builds the command line arguments of `ffmpeg` that encode the input video for
/// `duration` seconds with the given parameters and print the SSIM.
pub fn ffmpeg_args(
    p: &FfmpegParams,
    input_video_path: &str,
    duration: u64,
    bitrate: Option<&String>,
    resolution: Option<&String>,
) -> (res: Vec<String>)
    requires
        p.me < 4,
        p.direct < 4,
    ensures
        views(res@) == ffmpeg_command(
            *p,
            input_video_path@,
            duration,
            match bitrate { Some(b) => Some(*b), None => None },
            match resolution { Some(r) => Some(*r), None => None },
        ),
{
    let mut args: Vec<String> = Vec::new();
    push(&mut args, "-y".to_owned());
    push_opt(&mut args, "t", u64_to_string(duration));
    push_opt(&mut args, "i", input_video_path.to_owned());
    push_opt(&mut args, "tune", "ssim".to_owned());
    push_opt(&mut args, "ssim", "1".to_owned());
    if let Some(b) = bitrate {
        push_opt(&mut args, "vb", b.clone());
    }
    if let Some(s) = resolution {
        push_opt(&mut args, "s", s.clone());
    }
    push(&mut args, "-an".to_owned());
    push_opt(&mut args, "refs", i64_to_string(p.refs));
    push_opt(&mut args, "qcomp", p.qcomp.clone());
    push_opt(&mut args, "qdiff", i64_to_string(p.qdiff));
    push_opt(&mut args, "me_range", i64_to_string(p.me_range));
    let opts = x264opts(p);
    push_opt(&mut args, "x264opts", join_strings(&opts, ":"));
    push_opt(&mut args, "vcodec", "libx264".to_owned());
    push_opt(&mut args, "f", "null".to_owned());
    push(&mut args, "-".to_owned());
    assert(views(args@) =~= ffmpeg_command(
        *p,
        input_video_path@,
        duration,
        match bitrate { Some(b) => Some(*b), None => None },
        match resolution { Some(r) => Some(*r), None => None },
    ));
    args
}

/// The version of `ffmpeg` that `ffmpeg -version` reports in `output`: its third
/// space-separated field.
///
/// Fails with `InvalidInput` when the output has fewer fields.
pub fn ffmpeg_version_of(output: &str) -> (res: Result<String, ErrorKind>)
    ensures
        match nth_field(output@, ' ', 2) {
            Some(v) => res is Ok && res->Ok_0@ == v,
            None => res == Err::<String, ErrorKind>(ErrorKind::InvalidInput),
        },
{
    match split_nth(output, ' ', 2) {
        Some(v) => Ok(v),
        None => Err(ErrorKind::InvalidInput),
    }
}

/// What the regular expression `pattern` captures in its group `group` at its first match
/// in `text`: `None` when `pattern` is not a valid regular expression, `Some(None)` when it
/// does not match or the group takes no part in the match.
pub uninterp spec fn regex_group(pattern: Seq<char>, text: Seq<char>, group: usize) -> Option<Option<Seq<char>>>;

/// Calls `regex::Regex::new(pattern)` and then `captures(text)` and `get(group)` on what it
/// returns: the text of the group at the first match, a function of the three arguments
/// alone, named `regex_group`.
#[verifier::external_body]
fn regex_first_group(pattern: &str, text: &str, group: usize) -> (res: Option<Option<String>>)
    ensures
        match res {
            Some(Some(t)) => regex_group(pattern@, text@, group) == Some(Some(t@)),
            Some(None) => regex_group(pattern@, text@, group) == Some(None::<Seq<char>>),
            None => regex_group(pattern@, text@, group) is None,
        },
{
    let re = match regex::Regex::new(pattern) {
        Ok(re) => re,
        Err(_) => return None,
    };
    let caps = match re.captures(text) {
        Some(caps) => caps,
        None => return Some(None),
    };
    match caps.get(group) {
        Some(m) => Some(Some(m.as_str().to_owned())),
        None => Some(None),
    }
}

/// The pattern of the line in which `ffmpeg` reports the mean SSIM of the luma plane.
pub open spec fn ssim_pattern() -> Seq<char> {
    "SSIM Mean Y:([0-9.]+)"@
}

/// The mean SSIM text of an encoding, given whether `ffmpeg` succeeded and what the
/// pattern search in its error output gave.
///
/// Fails with `InvalidInput` when `ffmpeg` failed or reported no SSIM, and with `Other`
/// when the pattern is refused.
pub fn ssim_from_search(success: bool, found: Option<Option<String>>) -> (res: Result<String, ErrorKind>)
    ensures
        !success ==> res == Err::<String, ErrorKind>(ErrorKind::InvalidInput),
        success ==> match found {
            Some(Some(t)) => res is Ok && res->Ok_0@ == t@,
            Some(None) => res == Err::<String, ErrorKind>(ErrorKind::InvalidInput),
            None => res == Err::<String, ErrorKind>(ErrorKind::Other),
        },
{
    if !success {
        return Err(ErrorKind::InvalidInput);
    }
    match found {
        Some(Some(t)) => Ok(t),
        Some(None) => Err(ErrorKind::InvalidInput),
        None => Err(ErrorKind::Other),
    }
}

/// The mean SSIM text that `ffmpeg` printed to its error output `stderr`, given whether
/// it exited successfully; see `ssim_from_search` for the failures.
pub fn ssim_text(success: bool, stderr: &str) -> (res: Result<String, ErrorKind>)
    ensures
        !success ==> res == Err::<String, ErrorKind>(ErrorKind::InvalidInput),
        success ==> match regex_group(ssim_pattern(), stderr@, 1) {
            Some(Some(t)) => res is Ok && res->Ok_0@ == t,
            Some(None) => res == Err::<String, ErrorKind>(ErrorKind::InvalidInput),
            None => res == Err::<String, ErrorKind>(ErrorKind::Other),
        },
{
    if !success {
        return Err(ErrorKind::InvalidInput);
    }
    let found = regex_first_group("SSIM Mean Y:([0-9.]+)", stderr, 1);
    ssim_from_search(success, found)
}

/// The options name what the parameter domain offers: the motion estimation and direct
/// modes are the choices of the domain's `me` and `direct` variables, in the domain's order,
/// and the partition and flag options are named after the domain's boolean variables. So
/// the libx264 options of parameters that chose `me = i` and `direct = j` hold `me=`
/// followed by the `i`-th choice of `me`, and `direct=` followed by the `j`-th of `direct`.
pub proof fn lemma_options_follow_domain(vars: Seq<VariableSpec>, p: FfmpegParams)
    requires
        ffmpeg_params(vars),
        p.me < 4,
        p.direct < 4,
    ensures
        vars[16].name@ == "me"@,
        choice_texts(vars[16]) == me_names(),
        vars[17].name@ == "direct"@,
        choice_texts(vars[17]) == direct_names(),
        forall|k: int| 0 <= k < 5 ==> #[trigger] partition_names()[k] == vars[11 + k].name@,
        forall|k: int| 0 <= k < 10 ==> #[trigger] flag_names()[k] == vars[21 + k].name@,
        x264_options(p).contains("me="@ + choice_texts(vars[16])[p.me as int]),
        x264_options(p).contains("direct="@ + choice_texts(vars[17])[p.direct as int]),
{
    assert(choice_texts(vars[16]) =~= me_names());
    assert(choice_texts(vars[17]) =~= direct_names());
    let opts = x264_options(p);
    let parts = selected_names(p.partitions@, partition_names());
    let n: int = if p.trellis > 0 { 7 } else { 6 };
    assert(opts[n] == "me="@ + me_names()[p.me as int]);
    assert(opts[n + 1] == "direct="@ + direct_names()[p.direct as int]);
}

/// The parameter domain of the video encoding problem: the encoder's numbers as discrete
/// ranges `[low, high)` (`refs`, `qdiff`, `me_range`, `b-adapt`, `subme`, `rc-lookahead`,
/// `scenecut`, `trellis`, `deblockalpha`, `deblockbeta`), `qcomp` and the two `psy-rd`
/// strengths in `[0, 1)` (held as bounds whose low one is below the high one and not
/// positive), the motion estimation and direct modes as choices, and the other options
/// as `false` / `true` choices; none of them constrained.
pub open spec fn ffmpeg_params(vars: Seq<VariableSpec>) -> bool {
    &&& vars.len() == 31
    &&& is_discrete_var(vars[0], "refs"@, 1, 16, Distribution::Uniform)
    &&& is_continuous_var(vars[1], "qcomp"@, true, false, Distribution::Uniform)
    &&& is_discrete_var(vars[2], "qdiff"@, 1, 51, Distribution::Uniform)
    &&& is_discrete_var(vars[3], "me_range"@, 4, 16, Distribution::Uniform)
    &&& is_discrete_var(vars[4], "b-adapt"@, 0, 2, Distribution::Uniform)
    &&& is_discrete_var(vars[5], "subme"@, 1, 9, Distribution::Uniform)
    &&& is_discrete_var(vars[6], "rc-lookahead"@, 10, 100, Distribution::Uniform)
    &&& is_discrete_var(vars[7], "scenecut"@, 10, 100, Distribution::Uniform)
    &&& is_discrete_var(vars[8], "trellis"@, 0, 2, Distribution::Uniform)
    &&& is_continuous_var(vars[9], "psy-rd.0"@, true, false, Distribution::Uniform)
    &&& is_continuous_var(vars[10], "psy-rd.1"@, true, false, Distribution::Uniform)
    &&& is_categorical_var(vars[11], "p8x8"@, seq!["false"@, "true"@])
    &&& is_categorical_var(vars[12], "p4x4"@, seq!["false"@, "true"@])
    &&& is_categorical_var(vars[13], "b8x8"@, seq!["false"@, "true"@])
    &&& is_categorical_var(vars[14], "i8x8"@, seq!["false"@, "true"@])
    &&& is_categorical_var(vars[15], "i4x4"@, seq!["false"@, "true"@])
    &&& is_categorical_var(vars[16], "me"@, seq!["dia"@, "hex"@, "umh"@, "esa"@])
    &&& is_categorical_var(vars[17], "direct"@, seq!["none"@, "spatial"@, "temporal"@, "auto"@])
    &&& is_categorical_var(vars[18], "deblock"@, seq!["false"@, "true"@])
    &&& is_discrete_var(vars[19], "deblockalpha"@, -6i64, 6i64, Distribution::Uniform)
    &&& is_discrete_var(vars[20], "deblockbeta"@, -6i64, 6i64, Distribution::Uniform)
    &&& is_categorical_var(vars[21], "b-pyramid"@, seq!["false"@, "true"@])
    &&& is_categorical_var(vars[22], "no-cabac"@, seq!["false"@, "true"@])
    &&& is_categorical_var(vars[23], "mixed-refs"@, seq!["false"@, "true"@])
    &&& is_categorical_var(vars[24], "no-chroma-me"@, seq!["false"@, "true"@])
    &&& is_categorical_var(vars[25], "8x8dct"@, seq!["false"@, "true"@])
    &&& is_categorical_var(vars[26], "no-fast-pskip"@, seq!["false"@, "true"@])
    &&& is_categorical_var(vars[27], "no-dct-decimate"@, seq!["false"@, "true"@])
    &&& is_categorical_var(vars[28], "deadzone-inter"@, seq!["false"@, "true"@])
    &&& is_categorical_var(vars[29], "deadzone-intra"@, seq!["false"@, "true"@])
    &&& is_categorical_var(vars[30], "nr"@, seq!["false"@, "true"@])
}

/// The parameter domain of the video encoding problem, as `ffmpeg_params` describes it;
/// every variable of it is valid.
pub fn ffmpeg_params_domain() -> (res: Vec<VariableSpec>)
    ensures
        ffmpeg_params(res@),
        forall|i: int| 0 <= i < res@.len() ==> variable_valid(#[trigger] res@[i]),
{
    let p0 = discrete_var("refs", 1, 16);
    let p1 = continuous_var("qcomp", true, false, Distribution::Uniform);
    let p2 = discrete_var("qdiff", 1, 51);
    let p3 = discrete_var("me_range", 4, 16);
    let p4 = discrete_var("b-adapt", 0, 2);
    let p5 = discrete_var("subme", 1, 9);
    let p6 = discrete_var("rc-lookahead", 10, 100);
    let p7 = discrete_var("scenecut", 10, 100);
    let p8 = discrete_var("trellis", 0, 2);
    let p9 = continuous_var("psy-rd.0", true, false, Distribution::Uniform);
    let p10 = continuous_var("psy-rd.1", true, false, Distribution::Uniform);
    let p11 = boolean_var("p8x8");
    let p12 = boolean_var("p4x4");
    let p13 = boolean_var("b8x8");
    let p14 = boolean_var("i8x8");
    let p15 = boolean_var("i4x4");
    let items: Vec<&str> = vec!["dia", "hex", "umh", "esa"];
    assert(items@.map_values(|s: &str| s@) =~= seq!["dia"@, "hex"@, "umh"@, "esa"@]);
    let p16 = choices_var("me", items);
    let items: Vec<&str> = vec!["none", "spatial", "temporal", "auto"];
    assert(items@.map_values(|s: &str| s@) =~= seq!["none"@, "spatial"@, "temporal"@, "auto"@]);
    let p17 = choices_var("direct", items);
    let p18 = boolean_var("deblock");
    let p19 = discrete_var("deblockalpha", -6, 6);
    let p20 = discrete_var("deblockbeta", -6, 6);
    let p21 = boolean_var("b-pyramid");
    let p22 = boolean_var("no-cabac");
    let p23 = boolean_var("mixed-refs");
    let p24 = boolean_var("no-chroma-me");
    let p25 = boolean_var("8x8dct");
    let p26 = boolean_var("no-fast-pskip");
    let p27 = boolean_var("no-dct-decimate");
    let p28 = boolean_var("deadzone-inter");
    let p29 = boolean_var("deadzone-intra");
    let p30 = boolean_var("nr");
    let res = vec![
        p0, p1, p2, p3, p4, p5, p6, p7, p8, p9, p10, p11, p12, p13, p14, p15, p16, p17, p18, p19, p20, p21, p22, p23, p24, p25, p26, p27, p28, p29, p30,
    ];
    proof {
        assert(ffmpeg_params(res@));
        assert forall|i: int| 0 <= i < res@.len() implies variable_valid(#[trigger] res@[i]) by {
            match res@[i].range {
                RangeSpec::Categorical { choices } => {
                    assert(choices@.map_values(|s: String| s@).len() == choices@.len());
                },
                _ => {},
            }
        }
    }
    res
}

} // verus!
