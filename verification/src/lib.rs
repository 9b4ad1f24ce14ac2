//! The rules of importing externally produced GPU frames as textures.
//!
//! Browser engines, media decoders, capture pipelines and compositors hand
//! their output over as a platform handle to memory the GPU already holds: a
//! DMA-BUF file descriptor on Linux, an `IOSurface` on Apple platforms, a
//! shared `ID3D12Resource` handle on Windows. What is decided on the way from
//! such a handle to a texture is decided here, on plain values, and proved:
//! which frames are accepted, what every driver call is asked for, in which
//! order the calls come, and what is given back when one of them fails.
//!
//! - [`dma_buf`]: Linux DMA-BUF, through Vulkan external memory or EGL.
//! - [`io_surface`]: macOS `IOSurface`, through Metal.
//! - [`shared_handle`]: Windows shared texture handles, through Direct3D 12.
//! - [`texture`]: the texture descriptions that all three share.
pub mod dma_buf;
pub mod io_surface;
pub mod shared_handle;
pub mod texture;
