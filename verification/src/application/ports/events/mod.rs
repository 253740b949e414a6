pub mod payloads;
