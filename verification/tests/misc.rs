use sonar_core::cli::print_banner;
use sonar_core::text::{dec_u64, hex2, hex_u16, str_eq};
use sonar_core::sniff::{check_interface, with_all_interfaces_option};

/// Teste la fonction print_banner.
///
/// Ce test vérifie que la bannière retournée n'est pas vide et contient les éléments attendus de l'art ASCII.
#[test]
fn test_print_banner() {
    // Appelle la fonction print_banner pour récupérer la bannière.
    let banner = print_banner();

    // Vérifie que la chaîne retournée n'est pas vide.
    assert!(!banner.is_empty());

    // Vérifie que la chaîne retournée contient le texte du banner ASCII.
    assert!(banner.contains("_______"));
    assert!(banner.contains("/   _____/"));
    assert!(banner.contains("\\_____  \\"));
    assert!(banner.contains("/        ("));
    assert!(banner.contains("/_______  /"));
    assert!(banner.contains("          \\/"));
}

#[test]
fn test_check_interface_all() {
    // Vérifie que la fonction renvoie vrai lorsque l'interface est "Toutes les interfaces"
    assert!(check_interface("Toutes les interfaces"));
}

#[test]
fn test_check_interface_specific() {
    // Vérifie que la fonction renvoie faux lorsque l'interface est spécifique
    assert!(!check_interface("en0"));
}

#[test]
fn decimal_rendering_exact() {
    assert_eq!(dec_u64(0), "0");
    assert_eq!(dec_u64(9), "9");
    assert_eq!(dec_u64(10), "10");
    assert_eq!(dec_u64(443), "443");
    assert_eq!(dec_u64(65535), "65535");
    assert_eq!(dec_u64(u64::MAX), "18446744073709551615");
}

#[test]
fn hexadecimal_rendering_exact() {
    assert_eq!(hex2(0x00), "00");
    assert_eq!(hex2(0xab), "ab");
    assert_eq!(hex2(0x0f), "0f");
    assert_eq!(hex_u16(0), "0");
    assert_eq!(hex_u16(0x1b), "1b");
    assert_eq!(hex_u16(0xfe80), "fe80");
}

#[test]
fn string_comparison_by_characters() {
    assert!(str_eq("", ""));
    assert!(str_eq("eth0", "eth0"));
    assert!(!str_eq("eth0", "eth1"));
    assert!(!str_eq("eth0", "eth00"));
    assert!(str_eq("interface réseau", "interface réseau"));
}

#[test]
fn all_interfaces_option_comes_last() {
    let names = vec![String::from("eth0"), String::from("wlan0")];
    let all = with_all_interfaces_option(names);
    assert_eq!(all.len(), 3);
    assert_eq!(all[0], "eth0");
    assert_eq!(all[1], "wlan0");
    assert_eq!(all.last(), Some(&String::from("Toutes les interfaces")));
    assert!(check_interface(all.last().unwrap()));
}
