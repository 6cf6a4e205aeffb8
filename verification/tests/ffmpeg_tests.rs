use kurobako::error::ErrorKind;
use kurobako::problems::ffmpeg::{
    duration_seconds, ffmpeg_args, ffmpeg_version_of, ssim_from_search, ssim_text, x264opts,
    FfmpegParams, FfmpegProblem, FfmpegProblemRecipe,
};

fn sample_params() -> FfmpegParams {
    FfmpegParams {
        refs: 3,
        qcomp: "0.5".to_owned(),
        qdiff: 4,
        me_range: 16,
        b_adapt: 1,
        subme: 7,
        rc_lookahead: 40,
        scenecut: 40,
        trellis: 1,
        psy_rd_0: "1".to_owned(),
        psy_rd_1: "0.15".to_owned(),
        partitions: vec![true, false, true, false, false],
        me: 2,
        direct: 1,
        deblock: true,
        deblock_alpha: -1,
        deblock_beta: 0,
        flags: vec![true, false, false, false, false, false, false, false, false, true],
    }
}

fn strings(xs: &[&str]) -> Vec<String> {
    xs.iter().map(|s| s.to_string()).collect()
}

#[test]
fn x264_options_of_sample() {
    assert_eq!(
        x264opts(&sample_params()),
        strings(&[
            "b-adapt=1",
            "subme=7",
            "rc-lookahead=40",
            "scenecut=40",
            "trellis=1",
            "psy-rd=1,0.15",
            "partitions=p8x8,b8x8",
            "me=umh",
            "direct=spatial",
            "deblock=-1,0",
            "b-pyramid",
            "nr",
        ])
    );
}

#[test]
fn x264_options_without_trellis_partitions_or_deblock() {
    let mut p = sample_params();
    p.trellis = 0;
    p.partitions = vec![false; 5];
    p.deblock = false;
    p.me = 0;
    p.direct = 3;
    p.flags = vec![false; 10];
    assert_eq!(
        x264opts(&p),
        strings(&[
            "b-adapt=1",
            "subme=7",
            "rc-lookahead=40",
            "scenecut=40",
            "trellis=0",
            "partitions=none",
            "me=dia",
            "direct=auto",
            "no-deblock",
        ])
    );
}

#[test]
fn ffmpeg_command_line_of_sample() {
    let bitrate = "1M".to_owned();
    let args = ffmpeg_args(&sample_params(), "in.mp4", 10, Some(&bitrate), None);
    let opts = "b-adapt=1:subme=7:rc-lookahead=40:scenecut=40:trellis=1:psy-rd=1,0.15:partitions=p8x8,b8x8:me=umh:direct=spatial:deblock=-1,0:b-pyramid:nr";
    assert_eq!(
        args,
        strings(&[
            "-y", "-t", "10", "-i", "in.mp4", "-tune", "ssim", "-ssim", "1", "-vb", "1M", "-an",
            "-refs", "3", "-qcomp", "0.5", "-qdiff", "4", "-me_range", "16", "-x264opts", opts,
            "-vcodec", "libx264", "-f", "null", "-",
        ])
    );
}

#[test]
fn ffmpeg_command_line_with_resolution() {
    let resolution = "640x480".to_owned();
    let args = ffmpeg_args(&sample_params(), "v.mp4", 1, None, Some(&resolution));
    assert_eq!(&args[9..12], &strings(&["-s", "640x480", "-an"])[..]);
}

#[test]
fn durations_are_at_least_one_second() {
    assert_eq!(duration_seconds(0), 1);
    assert_eq!(duration_seconds(1), 1);
    assert_eq!(duration_seconds(90), 90);
    let recipe = FfmpegProblemRecipe {
        input_video_path: "v.mp4".to_owned(),
        duration: Some(0),
        bitrate: None,
        resolution: None,
    };
    assert_eq!(recipe.given_duration(), Some(1));
    let problem = FfmpegProblem::new(&recipe, "4.2".to_owned(), 12);
    assert_eq!(problem.version(), "4.2");
    assert_eq!(problem.duration(), 12);
    assert_eq!(problem.create_evaluator().input_video_path, "v.mp4");
}

#[test]
fn version_is_the_third_field() {
    assert_eq!(
        ffmpeg_version_of("ffmpeg version 4.2.2 Copyright (c) 2000-2019"),
        Ok("4.2.2".to_owned())
    );
    assert_eq!(ffmpeg_version_of("ffmpeg version"), Err(ErrorKind::InvalidInput));
}

#[test]
fn ssim_is_read_from_the_error_output() {
    let stderr = "frame= 10\n[Parsed_ssim_0] SSIM Mean Y:0.987654 (19.1)\nSSIM Mean Y:0.5\n";
    assert_eq!(ssim_text(true, stderr), Ok("0.987654".to_owned()));
    assert_eq!(ssim_text(false, stderr), Err(ErrorKind::InvalidInput));
    assert_eq!(ssim_text(true, "no statistics"), Err(ErrorKind::InvalidInput));
}

#[test]
fn ssim_search_outcomes() {
    assert_eq!(ssim_from_search(true, Some(Some("0.9".to_owned()))), Ok("0.9".to_owned()));
    assert_eq!(ssim_from_search(true, Some(None)), Err(ErrorKind::InvalidInput));
    assert_eq!(ssim_from_search(true, None), Err(ErrorKind::Other));
    assert_eq!(ssim_from_search(false, Some(Some("0.9".to_owned()))), Err(ErrorKind::InvalidInput));
}
