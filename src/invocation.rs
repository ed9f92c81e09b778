use vstd::prelude::*;
use crate::config::RecorderConfig;

verus! {

/// The character of a decimal digit.
pub open spec fn digit_char(d: nat) -> char {
    if d == 0 {
        '0'
    } else if d == 1 {
        '1'
    } else if d == 2 {
        '2'
    } else if d == 3 {
        '3'
    } else if d == 4 {
        '4'
    } else if d == 5 {
        '5'
    } else if d == 6 {
        '6'
    } else if d == 7 {
        '7'
    } else if d == 8 {
        '8'
    } else {
        '9'
    }
}

/// The decimal notation of `n`, without leading zeros.
pub open spec fn decimal_of(n: nat) -> Seq<char>
    decreases n,
{
    if n < 10 {
        seq![digit_char(n)]
    } else {
        decimal_of(n / 10).push(digit_char(n % 10))
    }
}

/// The text of each argument.
pub open spec fn args_view(v: Seq<String>) -> Seq<Seq<char>> {
    v.map_values(|s: String| s@)
}

/// The arguments of an `ffmpeg` process that reads raw RGB24 frames of
/// `width` x `height` at `fps` from its standard input, optionally mixes in
/// an audio source, and writes H.264 at quality `quality` to `output`.
pub open spec fn encoder_args(
    output: Seq<char>,
    fps: nat,
    quality: nat,
    width: nat,
    height: nat,
    audio: Option<Seq<char>>,
) -> Seq<Seq<char>> {
    seq![
        "-y"@,
        "-f"@,
        "rawvideo"@,
        "-pix_fmt"@,
        "rgb24"@,
        "-s"@,
        decimal_of(width) + "x"@ + decimal_of(height),
        "-r"@,
        decimal_of(fps),
        "-i"@,
        "-"@,
    ] + match audio {
        Some(a) => seq!["-f"@, "pulse"@, "-i"@, a],
        None => Seq::empty(),
    } + seq!["-c:v"@, "libx264"@, "-crf"@, decimal_of(quality), "-pix_fmt"@, "yuv420p"@, output]
}

/// The text of one decimal digit.
fn digit(d: u32) -> (r: &'static str)
    requires
        d < 10,
    ensures
        r@ == seq![digit_char(d as nat)],
{
    if d == 0 {
        proof { reveal_strlit("0"); }
        "0"
    } else if d == 1 {
        proof { reveal_strlit("1"); }
        "1"
    } else if d == 2 {
        proof { reveal_strlit("2"); }
        "2"
    } else if d == 3 {
        proof { reveal_strlit("3"); }
        "3"
    } else if d == 4 {
        proof { reveal_strlit("4"); }
        "4"
    } else if d == 5 {
        proof { reveal_strlit("5"); }
        "5"
    } else if d == 6 {
        proof { reveal_strlit("6"); }
        "6"
    } else if d == 7 {
        proof { reveal_strlit("7"); }
        "7"
    } else if d == 8 {
        proof { reveal_strlit("8"); }
        "8"
    } else {
        proof { reveal_strlit("9"); }
        "9"
    }
}

/// The decimal notation of `n`.
pub fn decimal(n: u32) -> (r: String)
    ensures
        r@ == decimal_of(n as nat),
    decreases n,
{
    if n < 10 {
        digit(n).to_string()
    } else {
        let mut s = decimal(n / 10);
        s.append(digit(n % 10));
        s
    }
}

/// Appends one argument.
fn push_arg(args: &mut Vec<String>, arg: String)
    ensures
        args_view(final(args)@) == args_view(old(args)@).push(arg@),
{
    args.push(arg);
    assert(args_view(args@) =~= args_view(old(args)@).push(arg@));
}

/// The command line of an encoder process for frames of `width` x `height`
/// recorded under `config`; the configured audio source is mixed in when
/// `with_audio` holds.
pub fn encoder_invocation(config: &RecorderConfig, width: u32, height: u32, with_audio: bool) -> (r:
    Vec<String>)
    ensures
        args_view(r@) == encoder_args(
            config.output@,
            config.fps as nat,
            config.video_quality as nat,
            width as nat,
            height as nat,
            if with_audio {
                Some(config.audio_source@)
            } else {
                None
            },
        ),
{
    let mut args: Vec<String> = Vec::new();
    push_arg(&mut args, "-y".to_string());
    push_arg(&mut args, "-f".to_string());
    push_arg(&mut args, "rawvideo".to_string());
    push_arg(&mut args, "-pix_fmt".to_string());
    push_arg(&mut args, "rgb24".to_string());
    push_arg(&mut args, "-s".to_string());
    let mut size = decimal(width);
    size.append("x");
    size.append(decimal(height).as_str());
    push_arg(&mut args, size);
    push_arg(&mut args, "-r".to_string());
    push_arg(&mut args, decimal(config.fps));
    push_arg(&mut args, "-i".to_string());
    push_arg(&mut args, "-".to_string());
    if with_audio {
        push_arg(&mut args, "-f".to_string());
        push_arg(&mut args, "pulse".to_string());
        push_arg(&mut args, "-i".to_string());
        push_arg(&mut args, config.audio_source.clone());
    }
    push_arg(&mut args, "-c:v".to_string());
    push_arg(&mut args, "libx264".to_string());
    push_arg(&mut args, "-crf".to_string());
    push_arg(&mut args, decimal(config.video_quality));
    push_arg(&mut args, "-pix_fmt".to_string());
    push_arg(&mut args, "yuv420p".to_string());
    push_arg(&mut args, config.output.clone());
    assert(args_view(args@) =~= encoder_args(
        config.output@,
        config.fps as nat,
        config.video_quality as nat,
        width as nat,
        height as nat,
        if with_audio {
            Some(config.audio_source@)
        } else {
            None
        },
    ));
    args
}

} // verus!
