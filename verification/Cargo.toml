[package]
name = "decafo"
version = "0.1.0"
edition = "2021"
publish = false

[dependencies]
actix-cors = "0.6"
actix-web = { version = "4", default-features = false, features = ["macros"] }
async-trait = "0.1"
base64 = "0.21"
chrono = "0.4"
dotenv = "0.15"
futures-util = "0.3"
jsonwebtoken = "8"
oauth2 = { version = "4", default-features = false, features = ["reqwest"] }
reqwest = { version = "0.11", default-features = false, features = ["json"] }
sea-orm = { version = "0.9", default-features = false, features = ["macros", "with-chrono", "with-json"] }
sea-orm-migration = { version = "0.9", default-features = false }
serde = { version = "1", features = ["derive"] }
serde_json = "1"
