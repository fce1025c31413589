[package]
name = "timetable"
version = "0.1.0"
edition = "2021"
publish = false

[dependencies]
chrono = "=0.4.19"
piston_window = "=0.148.0"
rand = "=0.7.3"
swarm_it = "=0.1.1"
time = "=0.1.45"
