use signature_patcher::pattern::select_rule;
use signature_patcher::image::overwrite;
use signature_patcher::session::{backup_path_for, ImagePending, RestorePending};
use signature_patcher::PatchError;

fn module_for(build: u32, length: usize, offset: usize) -> Vec<u8> {
    let rule = select_rule(build).unwrap();
    let mut image = vec![0x90u8; length];
    image[offset..offset + rule.search.len()].copy_from_slice(rule.search);
    image
}

#[test]
fn stages_of_a_patch_on_disk_in_order() {
    let original = module_for(26100, 1000, 100);
    let mut disk_module = original.clone();
    let mut disk_backup: Option<Vec<u8>> = None;

    let stage = ImagePending::begin(26100).unwrap();
    let stage = stage.image_read(Ok(disk_module.clone())).unwrap();
    assert_eq!(disk_backup, None);
    disk_backup = Some(disk_module.clone());
    let stage = stage.backup_made(Ok(())).unwrap();
    assert_eq!(disk_module, original);
    disk_module = stage.image().clone();
    let report = stage.image_written(Ok(()), "\"C:\\\\m.rdp_backup\"").unwrap();

    assert_eq!(
        report,
        "Patched successfully using 'Recent major release A' at offset 0x64. \
         Backup saved to \"C:\\\\m.rdp_backup\"."
    );
    assert_eq!(disk_backup, Some(original.clone()));
    assert_eq!(
        &disk_module[100..113],
        &[0xB8, 0x00, 0x01, 0x00, 0x00, 0x89, 0x81, 0x38, 0x06, 0x00, 0x00, 0x90, 0xEB]
    );
    assert_eq!(&disk_module[..100], &original[..100]);
    assert_eq!(&disk_module[113..], &original[113..]);
}

#[test]
fn begin_without_a_rule_fails() {
    let error = ImagePending::begin(1234).err().unwrap();
    assert_eq!(error, PatchError::NoPatternForBuild { build: 1234 });
    assert_eq!(error.message(), "No patch pattern available for build 1234");
}

#[test]
fn failed_read_ends_the_patch() {
    let stage = ImagePending::begin(26100).unwrap();
    let error = stage.image_read(Err("Access is denied. (os error 5)".to_string())).err().unwrap();
    assert_eq!(
        error,
        PatchError::ReadFailed { reason: "Access is denied. (os error 5)".to_string() }
    );
    assert_eq!(error.message(), "Failed to read termsrv.dll: Access is denied. (os error 5)");
}

#[test]
fn missing_signature_ends_the_patch_before_the_backup() {
    let stage = ImagePending::begin(9600).unwrap();
    let error = stage.image_read(Ok(vec![0u8; 4096])).err().unwrap();
    assert_eq!(error, PatchError::SignatureNotFound { description: "Mid-generation release B" });
    assert_eq!(
        error.message(),
        "Pattern 'Mid-generation release B' not found in termsrv.dll. \
         The DLL may already be patched or unsupported."
    );
}

#[test]
fn failed_backup_ends_the_patch_before_the_write() {
    let stage = ImagePending::begin(7600).unwrap();
    let stage = stage.image_read(Ok(module_for(7600, 64, 9))).unwrap();
    let error = stage.backup_made(Err("disk full".to_string())).err().unwrap();
    assert_eq!(error, PatchError::BackupFailed { reason: "disk full".to_string() });
    assert_eq!(error.message(), "Failed to backup termsrv.dll: disk full");
}

#[test]
fn failed_write_is_reported() {
    let stage = ImagePending::begin(7600).unwrap();
    let stage = stage.image_read(Ok(module_for(7600, 64, 9))).unwrap();
    let stage = stage.backup_made(Ok(())).unwrap();
    let error = stage.image_written(Err("file in use".to_string()), "backup").err().unwrap();
    assert_eq!(error, PatchError::WriteFailed { reason: "file in use".to_string() });
    assert_eq!(error.message(), "Failed to write patched termsrv.dll: file in use");
}

#[test]
fn image_to_write_is_the_read_image_with_the_replacement() {
    let original = module_for(19045, 30, 23);
    let stage = ImagePending::begin(19045).unwrap();
    let stage = stage.image_read(Ok(original.clone())).unwrap();
    let stage = stage.backup_made(Ok(())).unwrap();
    let mut expected = original;
    expected[23..30].copy_from_slice(&[0xB8, 0x00, 0x01, 0x00, 0x00, 0x89, 0x81]);
    assert_eq!(stage.image(), &expected);
}

#[test]
fn restore_stages() {
    let stage = RestorePending::begin(true).ok().unwrap();
    assert_eq!(
        stage.copy_made(Ok(())),
        Ok("termsrv.dll restored from backup successfully.".to_string())
    );
}

#[test]
fn restore_without_a_backup_file() {
    let error = RestorePending::begin(false).err().unwrap();
    assert_eq!(error, PatchError::BackupMissing);
    assert_eq!(error.message(), "Backup file not found. Cannot restore.");
}

#[test]
fn failed_restore_copy_is_reported() {
    let stage = RestorePending::begin(true).ok().unwrap();
    let error = stage.copy_made(Err("permission denied".to_string())).err().unwrap();
    assert_eq!(error, PatchError::RestoreCopyFailed { reason: "permission denied".to_string() });
    assert_eq!(error.message(), "Failed to restore termsrv.dll: permission denied");
}

#[test]
fn overwrite_in_the_middle_and_at_the_ends() {
    let mut image = vec![1u8, 2, 3, 4, 5, 6];
    overwrite(&mut image, 2, &[9, 8]);
    assert_eq!(image, vec![1, 2, 9, 8, 5, 6]);
    overwrite(&mut image, 0, &[7]);
    assert_eq!(image, vec![7, 2, 9, 8, 5, 6]);
    overwrite(&mut image, 3, &[0, 0, 0]);
    assert_eq!(image, vec![7, 2, 9, 0, 0, 0]);
    overwrite(&mut image, 6, &[]);
    assert_eq!(image, vec![7, 2, 9, 0, 0, 0]);
}

#[test]
fn backup_is_kept_beside_the_module() {
    assert_eq!(
        backup_path_for(r"C:\Windows\System32\termsrv.dll"),
        r"C:\Windows\System32\termsrv.dll.rdp_backup"
    );
    assert_eq!(backup_path_for(""), ".rdp_backup");
}
