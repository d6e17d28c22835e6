[package]
name = "detect_git_service"
version = "0.1.0"
edition = "2021"
publish = false

[dependencies]
url = "*"
diff-enum = "*"
