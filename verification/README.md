# wgpu_external_frame

The rules of importing externally produced GPU frames into
[`wgpu`](https://wgpu.rs) as textures, without copying a pixel through the CPU,
written in Rust and proved with [Verus](https://github.com/verus-lang/verus).

| Platform | Handle | Import path |
| --- | --- | --- |
| Linux | DMA-BUF file descriptor | Vulkan `VK_EXT_external_memory_dma_buf`, or EGL `EGL_LINUX_DMA_BUF_EXT` + `glEGLImageTargetTexture2DOES` |
| macOS | `IOSurface` | `MTLDevice newTextureWithDescriptor:iosurface:plane:` |
| Windows | Shared texture `HANDLE` | `ID3D12Device::OpenSharedHandle` |

## Layout

- `src/`: the verified library. It decides on plain values: which frames are
  accepted, what each driver call is asked for, in which order the calls come,
  and what is given back when one of them fails.
- `app/`: the crate that performs those decisions on a `wgpu` device, through
  its `hal` layer. It panics where the library rejects an input or a driver call
  fails.
- `tests/`: tests of the library.

## What is trusted

Six small functions read a constant or a flag out of `ash` or `glow`: the names
of three Vulkan extensions, the `DEVICE_LOCAL` memory flag, and two GL
enumerants. Each says in its doc comment what it claims. The drivers themselves,
and `app/`, are not verified.
