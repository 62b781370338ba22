[package]
name = "backup_audit"
version = "0.1.0"
edition = "2021"
publish = false

[dependencies]
sha2 = "0.9"
getopts = "*"
jwalk = "*"
indicatif = "*"
num_cpus = "*"
rayon = "*"
terminal_size = "*"
