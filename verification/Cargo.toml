[package]
name = "black_hole"
version = "0.1.0"
edition = "2021"
publish = false

[dependencies]
bevy = { version = "=0.18.1", default-features = false, features = ["std", "multi_threaded", "async_executor", "bevy_log", "bevy_asset", "bevy_window", "bevy_winit", "x11", "bevy_render", "bevy_core_pipeline", "bevy_camera", "bevy_sprite", "bevy_sprite_render", "bevy_gizmos", "bevy_gizmos_render", "bevy_image", "bevy_color", "bevy_shader", "bevy_mesh", "hdr", "keyboard", "mouse"] }
bytemuck = { version = "=1.25.2", features = ["derive"] }
