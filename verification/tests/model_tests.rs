use forge_core::model::{check_c_string, LlamaModel, ModelParams};
use forge_core::types::{AudioFormat, EncoderCapabilities, ImageInput};
use forge_core::ForgeError;

#[test]
fn model_defaults_and_metadata() {
    let p = ModelParams::default();
    assert_eq!(p.n_gpu_layers, -1);
    assert!(p.use_mmap && !p.use_mlock && !p.vocab_only);
    let m = LlamaModel::new("/models/a.gguf".to_string(), 32000, 4096, 1 << 30, 1, 2, 3);
    assert_eq!(m.path(), "/models/a.gguf");
    assert_eq!((m.n_vocab(), m.n_ctx_train(), m.tensor_bytes()), (32000, 4096, 1 << 30));
    assert_eq!((m.token_bos(), m.token_eos(), m.token_eot()), (1, 2, 3));
}

#[test]
fn c_strings_reject_interior_nul() {
    assert!(check_c_string("model.gguf").is_ok());
    assert!(matches!(
        check_c_string("a\0b\0"),
        Err(ForgeError::CStringError { nul_position: 1 })
    ));
}

#[test]
fn image_input_validity() {
    assert!(ImageInput::new(2, 2, vec![0; 16]).is_valid());
    assert!(!ImageInput::new(2, 2, vec![0; 15]).is_valid());
    assert!(!ImageInput::new(65_536, 65_536, vec![]).is_valid());
    assert!(!ImageInput::new(u32::MAX, u32::MAX, vec![0; 4]).is_valid());
    let f = AudioFormat::default();
    assert_eq!((f.sample_rate, f.channels), (0, 0));
    let c = EncoderCapabilities::default();
    assert!(!c.vision && !c.audio && !c.audio_output);
}
