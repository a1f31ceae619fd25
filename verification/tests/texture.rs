use openmobilemaps_rs::texture::TextureHolderInterfaceImpl;

#[test]
fn default_texture_is_empty() {
    let texture = TextureHolderInterfaceImpl::default();
    assert_eq!(texture.getImageWidth(), 0);
    assert_eq!(texture.getImageHeight(), 0);
    assert_eq!(texture.getTextureWidth(), 0);
    assert_eq!(texture.getTextureHeight(), 0);
    assert!(texture.texture_data().is_empty());
    assert_eq!(texture.usage_counter(), 0);
    assert!(!texture.is_attached());
}

#[test]
fn texture_needs_four_bytes_per_pixel() {
    let texture = TextureHolderInterfaceImpl::new(2, 3, vec![7; 24]).unwrap();
    assert_eq!(texture.getImageWidth(), 2);
    assert_eq!(texture.getImageHeight(), 3);
    assert_eq!(texture.texture_data(), &vec![7; 24]);
    assert!(TextureHolderInterfaceImpl::new(2, 3, vec![7; 23]).is_none());
    assert!(TextureHolderInterfaceImpl::new(2, 3, vec![7; 25]).is_none());
    assert!(TextureHolderInterfaceImpl::new(2, 3, vec![]).is_none());
    assert!(TextureHolderInterfaceImpl::new(0, 0, vec![]).is_some());
    assert!(TextureHolderInterfaceImpl::new(usize::MAX, usize::MAX, vec![0; 4]).is_none());
}

#[test]
fn first_attach_takes_the_uploaded_name() {
    let mut texture = TextureHolderInterfaceImpl::new(1, 1, vec![1, 2, 3, 4]).unwrap();
    assert_eq!(texture.id(), 0);
    assert_eq!(texture.attachToGraphics(17), 17);
    assert_eq!(texture.id(), 17);
    assert!(texture.is_attached());
    assert_eq!(texture.usage_counter(), 1);
    assert_eq!(texture.attachToGraphics(99), 17);
    assert_eq!(texture.usage_counter(), 2);
}

#[test]
fn texture_name_is_read_as_signed() {
    let mut texture = TextureHolderInterfaceImpl::default();
    assert_eq!(texture.attachToGraphics(u32::MAX), -1);
    assert_eq!(texture.id(), u32::MAX);
}

#[test]
fn clear_counts_down_before_it_detaches() {
    let mut texture = TextureHolderInterfaceImpl::new(1, 1, vec![1, 2, 3, 4]).unwrap();
    texture.attachToGraphics(5);
    texture.attachToGraphics(5);
    assert!(!texture.clearFromGraphics());
    assert_eq!(texture.usage_counter(), 1);
    assert!(texture.is_attached());
    assert!(!texture.clearFromGraphics());
    assert_eq!(texture.usage_counter(), 0);
    assert!(texture.is_attached());
    assert!(texture.clearFromGraphics());
    assert!(!texture.is_attached());
    assert_eq!(texture.usage_counter(), 0);
}

#[test]
fn attach_after_detach_takes_a_new_name() {
    let mut texture = TextureHolderInterfaceImpl::new(1, 1, vec![1, 2, 3, 4]).unwrap();
    assert_eq!(texture.attachToGraphics(5), 5);
    texture.clearFromGraphics();
    assert!(texture.clearFromGraphics());
    assert_eq!(texture.attachToGraphics(6), 6);
    assert_eq!(texture.usage_counter(), 1);
}
