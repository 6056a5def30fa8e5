[package]
name = "dicom_tools"
version = "0.1.0"
edition = "2021"
publish = false

[dependencies]
dicom = { version = "=0.10.0", default-features = false, features = ["inventory-registry"] }
dicom-core = "=0.10.0"
dicom-json = "=0.10.0"
dicom-ul = "=0.10.0"
anyhow = "=1.0.104"
