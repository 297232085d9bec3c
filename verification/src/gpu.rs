//! Acceleration capability reporting: a deterministic decision from the
//! platform and the outcome of the vendor-tool probes the thin outer layer
//! performs.

use vstd::prelude::*;

verus! {

/// The host platform, as fixed at build time.
#[derive(Debug, Clone, Copy, PartialEq, Eq, Structural)]
pub enum PlatformOs {
    MacOs,
    Windows,
    Linux,
    Other,
}

/// The reported acceleration capability.
#[derive(Debug, Clone)]
pub struct GPUInfo {
    pub gpu_type: String,
    pub is_available: bool,
    pub description: String,
}

/// Decides the acceleration capability: Apple machines report their Metal
/// flavour by architecture; Windows prefers CUDA over DirectML; Linux
/// prefers CUDA, then ROCm, then plain CPU; unknown platforms report CPU.
/// `cuda_probe_ok` and `rocm_probe_ok` carry the exit status of the
/// respective vendor-tool probes.
pub fn detect_gpu_capabilities(
    os: PlatformOs,
    arch_is_aarch64: bool,
    cuda_probe_ok: bool,
    rocm_probe_ok: bool,
) -> (r: GPUInfo)
    ensures
        os == PlatformOs::MacOs && arch_is_aarch64 ==> r.gpu_type@ == "mps"@ && r.is_available
            && r.description@ == "Apple Metal Performance Shaders (MPS) - Best for Apple Silicon Macs"@,
        os == PlatformOs::MacOs && !arch_is_aarch64 ==> r.gpu_type@ == "metal"@ && r.is_available
            && r.description@ == "Apple Metal - Available on Intel Macs but may be slower"@,
        os == PlatformOs::Windows && cuda_probe_ok ==> r.gpu_type@ == "cuda"@ && r.is_available
            && r.description@ == "NVIDIA CUDA GPU acceleration available"@,
        os == PlatformOs::Windows && !cuda_probe_ok ==> r.gpu_type@ == "directml"@ && r.is_available
            && r.description@ == "DirectML acceleration available on Windows"@,
        os == PlatformOs::Linux && cuda_probe_ok ==> r.gpu_type@ == "cuda"@ && r.is_available
            && r.description@ == "NVIDIA CUDA GPU acceleration available"@,
        os == PlatformOs::Linux && !cuda_probe_ok && rocm_probe_ok ==> r.gpu_type@ == "rocm"@
            && r.is_available && r.description@ == "AMD ROCm GPU acceleration available"@,
        os == PlatformOs::Linux && !cuda_probe_ok && !rocm_probe_ok ==> r.gpu_type@ == "cpu"@
            && !r.is_available && r.description@
            == "CPU processing - no GPU acceleration detected"@,
        os == PlatformOs::Other ==> r.gpu_type@ == "cpu"@ && !r.is_available && r.description@
            == "CPU processing - platform not supported"@,
{
    match os {
        PlatformOs::MacOs => {
            if arch_is_aarch64 {
                GPUInfo {
                    gpu_type: "mps".to_owned(),
                    is_available: true,
                    description:
                        "Apple Metal Performance Shaders (MPS) - Best for Apple Silicon Macs".to_owned(),
                }
            } else {
                GPUInfo {
                    gpu_type: "metal".to_owned(),
                    is_available: true,
                    description: "Apple Metal - Available on Intel Macs but may be slower".to_owned(),
                }
            }
        },
        PlatformOs::Windows => {
            if cuda_probe_ok {
                GPUInfo {
                    gpu_type: "cuda".to_owned(),
                    is_available: true,
                    description: "NVIDIA CUDA GPU acceleration available".to_owned(),
                }
            } else {
                GPUInfo {
                    gpu_type: "directml".to_owned(),
                    is_available: true,
                    description: "DirectML acceleration available on Windows".to_owned(),
                }
            }
        },
        PlatformOs::Linux => {
            if cuda_probe_ok {
                GPUInfo {
                    gpu_type: "cuda".to_owned(),
                    is_available: true,
                    description: "NVIDIA CUDA GPU acceleration available".to_owned(),
                }
            } else if rocm_probe_ok {
                GPUInfo {
                    gpu_type: "rocm".to_owned(),
                    is_available: true,
                    description: "AMD ROCm GPU acceleration available".to_owned(),
                }
            } else {
                GPUInfo {
                    gpu_type: "cpu".to_owned(),
                    is_available: false,
                    description: "CPU processing - no GPU acceleration detected".to_owned(),
                }
            }
        },
        PlatformOs::Other => {
            GPUInfo {
                gpu_type: "cpu".to_owned(),
                is_available: false,
                description: "CPU processing - platform not supported".to_owned(),
            }
        },
    }
}

} // verus!
