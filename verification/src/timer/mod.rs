pub mod arm_generic;
pub mod clockevent;
pub mod clocksource;
pub mod hpet;
pub mod pit;
