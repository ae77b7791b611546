//! Post-turn learning: reflection cue detection, throttling and storage planning.

pub mod reflection;
