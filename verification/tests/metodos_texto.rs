use kaju::metodos_texto::{
    comeca_com, dividir, fatiar, indice_de, juntar_textos, repetir, substituir, termina_com,
};

fn textos(v: &[&str]) -> Vec<String> {
    v.iter().map(|s| s.to_string()).collect()
}

#[test]
fn divida_pelo_separador() {
    assert_eq!(dividir("a,b,c", ","), textos(&["a", "b", "c"]));
    assert_eq!(dividir("a,b,", ","), textos(&["a", "b", ""]));
    assert_eq!(dividir("", ","), textos(&[""]));
    assert_eq!(dividir("sem separador", ";"), textos(&["sem separador"]));
    assert_eq!(dividir("aaa", "aa"), textos(&["", "a"]));
    assert_eq!(dividir("um--dois--três", "--"), textos(&["um", "dois", "três"]));
}

#[test]
fn divida_com_separador_vazio_da_os_caracteres() {
    assert_eq!(dividir("cajú", ""), textos(&["c", "a", "j", "ú"]));
    assert_eq!(dividir("", ""), Vec::<String>::new());
}

#[test]
fn junte_com_separador() {
    assert_eq!(juntar_textos(&textos(&["a", "b", "c"]), "+"), "a+b+c");
    assert_eq!(juntar_textos(&textos(&["só"]), ", "), "só");
    assert_eq!(juntar_textos(&textos(&[]), ", "), "");
    assert_eq!(juntar_textos(&textos(&["", ""]), "-"), "-");
}

#[test]
fn junte_desfaz_divida() {
    for (t, sep) in [("a,b,c", ","), ("a,,b,", ","), ("", ","), ("xyxyx", "xy"), ("cajú", ""), ("abc", "abcd")] {
        assert_eq!(juntar_textos(&dividir(t, sep), sep), t);
    }
}

#[test]
fn substitua_todas_as_ocorrencias() {
    assert_eq!(substituir("caju", "u", "!"), "caj!");
    assert_eq!(substituir("banana", "an", "AN"), "bANANa");
    assert_eq!(substituir("aaa", "aa", "b"), "ba");
    assert_eq!(substituir("abc", "x", "y"), "abc");
    assert_eq!(substituir("abc", "", "-"), "-a-b-c-");
    assert_eq!(substituir("", "", "-"), "-");
    assert_eq!(substituir("ação", "ç", "c"), "acão");
}

#[test]
fn indice_de_primeira_ocorrencia() {
    assert_eq!(indice_de("caju", "j"), Some(2));
    assert_eq!(indice_de("ação ação", "ção"), Some(1));
    assert_eq!(indice_de("caju", "x"), None);
    assert_eq!(indice_de("caju", ""), Some(0));
    assert_eq!(indice_de("ca", "caju"), None);
}

#[test]
fn comeca_e_termina() {
    assert!(comeca_com("caju", "ca"));
    assert!(!comeca_com("caju", "ju"));
    assert!(termina_com("caju", "ju"));
    assert!(!termina_com("caju", "ca"));
    assert!(comeca_com("caju", ""));
    assert!(termina_com("caju", ""));
    assert!(!termina_com("ju", "caju"));
}

#[test]
fn repita_e_fatie() {
    assert_eq!(repetir("ab", 3), "ababab");
    assert_eq!(repetir("ab", 0), "");
    assert_eq!(fatiar("caju", 0, 2), Some("ca".to_string()));
    assert_eq!(fatiar("cajú", 2, 4), Some("jú".to_string()));
    assert_eq!(fatiar("caju", 2, 2), Some(String::new()));
    assert_eq!(fatiar("caju", 3, 2), None);
    assert_eq!(fatiar("caju", 0, 5), None);
}
