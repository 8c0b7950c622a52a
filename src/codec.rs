use vstd::prelude::*;

verus! {

/// The paths and strings of a list of arguments, as character sequences.
pub open spec fn strings_view(v: Seq<String>) -> Seq<Seq<char>> {
    v.map_values(|s: String| s@)
}

/// The encoder flags that the encoding tool gets for an output extension.
pub open spec fn encoder_flags(ext: Seq<char>) -> Seq<Seq<char>> {
    if ext == "mp3"@ {
        seq!["-qscale:a"@, "2"@]
    } else if ext == "flac"@ {
        seq!["-compression_level"@, "12"@]
    } else if ext == "mp4"@ || ext == "mkv"@ || ext == "mov"@ || ext == "avi"@ {
        seq!["-vcodec"@, "libx265"@, "-crf"@, "28"@]
    } else {
        Seq::empty()
    }
}

/// The arguments of one run of the encoding tool: read `input`, write
/// `output`, with the flags of `ext`, overwriting what is there.
pub open spec fn encoder_args(input: Seq<char>, output: Seq<char>, ext: Seq<char>) -> Seq<Seq<char>> {
    seq!["-i"@, input, output] + encoder_flags(ext) + seq!["-y"@]
}

fn push_str(v: &mut Vec<String>, s: &str)
    ensures
        strings_view(final(v)@) == strings_view(old(v)@).push(s@),
{
    v.push(String::from_str(s));
    proof {
        assert(strings_view(v@) =~= strings_view(old(v)@).push(s@));
    }
}

/// The encoder flags for the output extension `ext`.
pub fn ffmpeg_flags(ext: &String) -> (r: Vec<String>)
    ensures
        strings_view(r@) == encoder_flags(ext@),
{
    let mut r: Vec<String> = Vec::new();
    if *ext == String::from_str("mp3") {
        push_str(&mut r, "-qscale:a");
        push_str(&mut r, "2");
    } else if *ext == String::from_str("flac") {
        push_str(&mut r, "-compression_level");
        push_str(&mut r, "12");
    } else if *ext == String::from_str("mp4") || *ext == String::from_str("mkv") || *ext
        == String::from_str("mov") || *ext == String::from_str("avi") {
        push_str(&mut r, "-vcodec");
        push_str(&mut r, "libx265");
        push_str(&mut r, "-crf");
        push_str(&mut r, "28");
    }
    proof {
        assert(strings_view(r@) =~= encoder_flags(ext@));
    }
    r
}

/// The arguments with which the encoding tool turns `input` into `output`.
pub fn ffmpeg_args(input: &String, output: &String, ext: &String) -> (r: Vec<String>)
    ensures
        strings_view(r@) == encoder_args(input@, output@, ext@),
{
    let mut r: Vec<String> = Vec::new();
    proof {
        assert(strings_view(r@) =~= Seq::<Seq<char>>::empty());
    }
    push_str(&mut r, "-i");
    let ghost r1 = r@;
    r.push(input.clone());
    let ghost r2 = r@;
    r.push(output.clone());
    proof {
        assert(strings_view(r2) =~= strings_view(r1).push(input@));
        assert(strings_view(r@) =~= strings_view(r2).push(output@));
    }
    let flags = ffmpeg_flags(ext);
    let mut i: usize = 0;
    proof {
        assert(strings_view(r@) =~= seq!["-i"@, input@, output@]);
    }
    while i < flags.len()
        invariant
            i <= flags@.len(),
            strings_view(r@) == seq!["-i"@, input@, output@] + strings_view(flags@).subrange(
                0,
                i as int,
            ),
        decreases flags@.len() - i,
    {
        let ghost prev = r@;
        r.push(flags[i].clone());
        proof {
            assert(strings_view(r@) =~= strings_view(prev).push(flags@[i as int]@));
            assert(strings_view(flags@).subrange(0, i + 1) =~= strings_view(flags@).subrange(
                0,
                i as int,
            ).push(flags@[i as int]@));
        }
        i = i + 1;
    }
    push_str(&mut r, "-y");
    proof {
        assert(strings_view(flags@).subrange(0, flags@.len() as int) =~= strings_view(flags@));
        assert(strings_view(r@) =~= encoder_args(input@, output@, ext@));
    }
    r
}

/// The report of a failed run of the encoding tool, with both of its captured
/// streams verbatim.
pub open spec fn failure_report(stderr: Seq<char>, stdout: Seq<char>) -> Seq<char> {
    "Failed FFMPEG execution!\nStdErr: "@ + stderr + "\nStdOut: "@ + stdout
}

/// The report of a failed run of the encoding tool.
pub fn ffmpeg_failure(stderr: &str, stdout: &str) -> (r: String)
    ensures
        r@ == failure_report(stderr@, stdout@),
{
    let mut r = String::from_str("Failed FFMPEG execution!\nStdErr: ");
    r.append(stderr);
    r.append("\nStdOut: ");
    r.append(stdout);
    r
}

} // verus!
