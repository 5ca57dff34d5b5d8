use vstd::prelude::*;
use crate::config::CaptureConfig;

verus! {

/// The external program that captures frames.
pub const CAPTURE_PROGRAM: &'static str = "ffmpeg";

/// Decimal digits of `n`, most significant first.
pub open spec fn decimal(n: nat) -> Seq<char>
    decreases n,
{
    let digit = seq!['0', '1', '2', '3', '4', '5', '6', '7', '8', '9'][(n % 10) as int];
    if n < 10 {
        seq![digit]
    } else {
        decimal(n / 10).push(digit)
    }
}

/// The video size argument, `<width>x<height>`.
pub open spec fn size_arg(width: u32, height: u32) -> Seq<char> {
    decimal(width as nat) + seq!['x'] + decimal(height as nat)
}

/// Arguments for a capture that streams raw RGB frames to standard output
/// until it is terminated.
pub open spec fn spec_stream_args(c: CaptureConfig) -> Seq<Seq<char>> {
    seq![
        "-f"@, "avfoundation"@, "-r"@, decimal(c.frame_rate as nat) + ".00"@, "-i"@,
        decimal(c.device_id as nat), "-s"@, size_arg(c.width, c.height), "-r"@,
        decimal(c.frame_rate as nat) + ".0"@, "-pix_fmt"@, "rgb24"@, "-f"@, "rawvideo"@, "-"@,
    ]
}

/// Arguments for a capture that writes exactly one raw RGB frame and exits.
pub open spec fn spec_single_frame_args(c: CaptureConfig) -> Seq<Seq<char>> {
    seq![
        "-f"@, "avfoundation"@, "-r"@, decimal(c.frame_rate as nat) + ".00"@, "-i"@,
        decimal(c.device_id as nat), "-s"@, size_arg(c.width, c.height), "-frames:v"@, "1"@,
        "-pix_fmt"@, "rgb24"@, "-f"@, "rawvideo"@, "-"@,
    ]
}

/// Arguments that make the capture program list its devices on its error stream.
pub open spec fn spec_list_devices_args() -> Seq<Seq<char>> {
    seq!["-f"@, "avfoundation"@, "-list_devices"@, "true"@, "-i"@, ""@]
}

pub open spec fn strings_view(v: Seq<String>) -> Seq<Seq<char>> {
    v.map_values(|s: String| s@)
}

fn digit_str(d: u32) -> (r: &'static str)
    requires
        d < 10,
    ensures
        r@ == seq![seq!['0', '1', '2', '3', '4', '5', '6', '7', '8', '9'][d as int]],
{
    proof {
        reveal_strlit("0");
        reveal_strlit("1");
        reveal_strlit("2");
        reveal_strlit("3");
        reveal_strlit("4");
        reveal_strlit("5");
        reveal_strlit("6");
        reveal_strlit("7");
        reveal_strlit("8");
        reveal_strlit("9");
    }
    let r = match d {
        0 => "0",
        1 => "1",
        2 => "2",
        3 => "3",
        4 => "4",
        5 => "5",
        6 => "6",
        7 => "7",
        8 => "8",
        _ => "9",
    };
    assert(r@ =~= seq![seq!['0', '1', '2', '3', '4', '5', '6', '7', '8', '9'][d as int]]);
    r
}

/// Appends the decimal digits of `n` to `out`.
pub fn push_decimal(out: &mut String, n: u32)
    ensures
        final(out)@ == old(out)@ + decimal(n as nat),
    decreases n,
{
    if n >= 10 {
        push_decimal(out, n / 10);
    }
    out.append(digit_str(n % 10));
    assert(final(out)@ =~= old(out)@ + decimal(n as nat));
}

/// `n` in decimal, followed by `suffix`.
fn decimal_with(n: u32, suffix: &str) -> (r: String)
    ensures
        r@ == decimal(n as nat) + suffix@,
{
    let mut s = String::new();
    push_decimal(&mut s, n);
    s.append(suffix);
    assert(s@ =~= decimal(n as nat) + suffix@);
    s
}

fn size_string(width: u32, height: u32) -> (r: String)
    ensures
        r@ == size_arg(width, height),
{
    proof {
        reveal_strlit("x");
    }
    let mut s = decimal_with(width, "x");
    push_decimal(&mut s, height);
    assert(s@ =~= size_arg(width, height));
    s
}

/// Capture program arguments for a continuous stream of `config`.
pub fn stream_args(config: &CaptureConfig) -> (r: Vec<String>)
    ensures
        strings_view(r@) == spec_stream_args(*config),
{
    let r = vec![
        "-f".to_owned(),
        "avfoundation".to_owned(),
        "-r".to_owned(),
        decimal_with(config.frame_rate, ".00"),
        "-i".to_owned(),
        decimal_with(config.device_id, ""),
        "-s".to_owned(),
        size_string(config.width, config.height),
        "-r".to_owned(),
        decimal_with(config.frame_rate, ".0"),
        "-pix_fmt".to_owned(),
        "rgb24".to_owned(),
        "-f".to_owned(),
        "rawvideo".to_owned(),
        "-".to_owned(),
    ];
    proof {
        reveal_strlit("");
    }
    assert(decimal(config.device_id as nat) + ""@ =~= decimal(config.device_id as nat));
    assert(strings_view(r@) =~= spec_stream_args(*config));
    r
}

/// Capture program arguments for a one-frame probe of `config`.
pub fn single_frame_args(config: &CaptureConfig) -> (r: Vec<String>)
    ensures
        strings_view(r@) == spec_single_frame_args(*config),
{
    let r = vec![
        "-f".to_owned(),
        "avfoundation".to_owned(),
        "-r".to_owned(),
        decimal_with(config.frame_rate, ".00"),
        "-i".to_owned(),
        decimal_with(config.device_id, ""),
        "-s".to_owned(),
        size_string(config.width, config.height),
        "-frames:v".to_owned(),
        "1".to_owned(),
        "-pix_fmt".to_owned(),
        "rgb24".to_owned(),
        "-f".to_owned(),
        "rawvideo".to_owned(),
        "-".to_owned(),
    ];
    proof {
        reveal_strlit("");
    }
    assert(decimal(config.device_id as nat) + ""@ =~= decimal(config.device_id as nat));
    assert(strings_view(r@) =~= spec_single_frame_args(*config));
    r
}

/// Capture program arguments that list the available devices.
pub fn list_devices_args() -> (r: Vec<String>)
    ensures
        strings_view(r@) == spec_list_devices_args(),
{
    let r = vec![
        "-f".to_owned(),
        "avfoundation".to_owned(),
        "-list_devices".to_owned(),
        "true".to_owned(),
        "-i".to_owned(),
        "".to_owned(),
    ];
    assert(strings_view(r@) =~= spec_list_devices_args());
    r
}

} // verus!
