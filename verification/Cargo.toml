[package]
name = "rdf_io"
version = "0.1.0"
edition = "2021"
publish = false

[dependencies]
oxiri = "=0.2.11"
quick-xml = "=0.36.2"
rio_api = "=0.8.6"
rio_turtle = "=0.8.6"
rio_xml = "=0.8.6"
