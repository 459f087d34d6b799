[package]
name = "counter_service"
version = "0.1.0"
edition = "2021"
publish = false

[dependencies]
rocket = { version = "0.5", features = ["json"] }
rocket_okapi = { version = "*", features = ["swagger", "rapidoc"] }
rocket_sync_db_pools = { version = "*", features = ["diesel_postgres_pool"] }
diesel = { version = "*", features = ["postgres"] }
diesel_migrations = "*"
