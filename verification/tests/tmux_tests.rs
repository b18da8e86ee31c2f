use timg_rust::tmux::{wrap_for_screen, wrap_for_tmux};

#[test]
fn test_wrap_simple_sequence() {
    let seq = "\x1b[31mred\x1b[0m";
    let wrapped = wrap_for_tmux(seq);
    assert_eq!(wrapped, "\x1bPtmux;\x1b\x1b[31mred\x1b\x1b[0m\x1b\\");
}

#[test]
fn test_wrap_kitty_sequence() {
    let seq = "\x1b_Ga=T\x1b\\";
    let wrapped = wrap_for_tmux(seq);
    // All ESC chars should be doubled
    assert_eq!(wrapped, "\x1bPtmux;\x1b\x1b_Ga=T\x1b\x1b\\\x1b\\");
}

#[test]
fn test_wrap_multiple_escapes() {
    let seq = "\x1b[1m\x1b[31m\x1b[0m";
    let wrapped = wrap_for_tmux(seq);
    assert_eq!(wrapped, "\x1bPtmux;\x1b\x1b[1m\x1b\x1b[31m\x1b\x1b[0m\x1b\\");
}

#[test]
fn test_wrap_empty_sequence() {
    let seq = "";
    let wrapped = wrap_for_tmux(seq);
    assert_eq!(wrapped, "\x1bPtmux;\x1b\\");
}

#[test]
fn test_wrap_no_escapes() {
    let seq = "hello";
    let wrapped = wrap_for_tmux(seq);
    assert_eq!(wrapped, "\x1bPtmux;hello\x1b\\");
}

#[test]
fn test_screen_wrap_same_as_tmux() {
    let seq = "\x1b[31mtext\x1b[0m";
    assert_eq!(wrap_for_screen(seq), wrap_for_tmux(seq));
}

#[test]
fn test_wrap_if_needed_by_flag() {
    let seq = "\x1b_Ga=T\x1b\\";
    assert_eq!(timg_rust::tmux::wrap_if_needed(seq, false), seq);
    assert_eq!(timg_rust::tmux::wrap_if_needed(seq, true), wrap_for_tmux(seq));
}
