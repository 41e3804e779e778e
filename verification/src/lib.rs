pub mod audio;
pub mod conversion_props;
pub mod converters;
pub mod enums;
pub mod file_processor;
pub mod input_profile;
pub mod laws;
pub mod logger;
pub mod media_file;
pub mod mkvtoolnix;
pub mod params_trait;
pub mod paths;
pub mod rx;
pub mod substitutions;
pub mod subtitle;
pub mod unified;
pub mod video;
pub mod media_info;
pub mod script_file;
pub mod strutil;
pub mod utils;
