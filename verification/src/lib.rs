//! Device logic of the Eruption keyboard driver stack, with its contracts:
//! the Wooting Two HE (ARM) driver (request checks, report building and
//! decoding, LED map packets, key tables), the keyboard layout choice of the
//! GUI's ROCCAT Vulcan Pro view, and the decisions of the audio proxy daemon.

pub mod audio_proxy;
pub mod hwdevices;
pub mod roccat_vulcan_pro;
pub mod text;
pub mod util;
pub mod wooting_tables;
pub mod wooting_two_he_arm;
