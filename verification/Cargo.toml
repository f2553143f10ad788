[package]
name = "verco"
version = "0.1.0"
edition = "2021"
publish = false

[dependencies]
regex = "1"
crossterm = "0.17"
ctrlc = "3"
rustyline = "6"
termion = "1"
dirs = "3"
directories = "3"
serde = { version = "1", features = ["derive"] }
serde_json = "1"
structopt = "0.3"
toml = "0.5"
winapi = { version = "0.3", features = ["consoleapi", "fileapi", "handleapi", "processenv", "winbase", "wincon", "wincontypes", "winnt", "winuser", "minwindef", "ntdef", "synchapi", "ioapiset", "minwinbase", "namedpipeapi", "errhandlingapi"] }
