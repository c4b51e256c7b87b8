//! Verified core of a terminal spectrum visualizer: de-interleaving of PCM
//! audio into transform windows, combination and rescaling of spectra, the
//! character grid of the bar graph, and the state machine that follows the
//! audio server's active output device.

pub mod analyze_spectrum;
pub mod fftw;
pub mod ncurses_wrapper;
pub mod pulse;
pub mod session;
pub mod visualizer;
