use kaju::explicacoes::{codigos_conhecidos, explicar, EXPLICACAO_K001, EXPLICACAO_K016, EXPLICACAO_K020, EXPLICACAO_K212};
use kaju::programa::normalizar_codigo;

/// Todo código listado em `codigos_conhecidos` deve ter um texto em `explicar`.
#[test]
fn todo_codigo_conhecido_tem_texto() {
    for codigo in codigos_conhecidos() {
        assert!(
            explicar(codigo).is_some(),
            "o código {codigo} está em codigos_conhecidos() mas não tem texto em explicar()"
        );
    }
}

#[test]
fn codigos_conhecidos_em_ordem_e_completos() {
    let cs = codigos_conhecidos();
    assert_eq!(cs.len(), 54);
    assert_eq!(cs[0], "K001");
    assert_eq!(cs[22], "K023");
    assert_eq!(cs[23], "K101");
    assert_eq!(cs[27], "K201");
    assert_eq!(cs[cs.len() - 1], "K231");
    for par in cs.windows(2) {
        assert!(par[0] < par[1]);
    }
    assert!(!cs.contains(&"K219"));
    assert!(!cs.contains(&"K223"));
    assert!(!cs.contains(&"K228"));
    assert!(!cs.contains(&"K229"));
}

#[test]
fn explicar_textos_conhecidos() {
    let t = explicar("K016").unwrap();
    assert!(t.starts_with("K016 — "));
    assert!(t.contains("fluxo"));
    let t = explicar("K020").unwrap();
    assert!(t.contains("divisão por zero"));
    let t = explicar("K001").unwrap();
    assert!(t.starts_with("K001 — variável não definida"));
    assert!(explicar("K231").unwrap().starts_with("K231"));
}

#[test]
fn explicar_codigos_desconhecidos() {
    assert_eq!(explicar("K219"), None);
    assert_eq!(explicar("K000"), None);
    assert_eq!(explicar("K999"), None);
    assert_eq!(explicar("k016"), None);
    assert_eq!(explicar("K16"), None);
    assert_eq!(explicar("K0160"), None);
    assert_eq!(explicar(""), None);
    assert_eq!(explicar("X016"), None);
}

#[test]
fn normalizar_codigo_aceita_formas_curtas() {
    assert_eq!(normalizar_codigo("k020"), "K020");
    assert_eq!(normalizar_codigo("016"), "K016");
    assert_eq!(normalizar_codigo("  K001 \n"), "K001");
    assert_eq!(normalizar_codigo(""), "K");
}

#[test]
fn comando_explique_formas() {
    let t = explicar(&normalizar_codigo("K016")).unwrap();
    assert!(t.contains("K016"));
    assert!(t.contains("fluxo"));
    let t = explicar(&normalizar_codigo("k020")).unwrap();
    assert!(t.contains("divisão por zero"));
}

#[test]
fn textos_comecam_pelo_codigo() {
    for c in codigos_conhecidos() {
        let t = explicar(c).unwrap();
        assert!(t.starts_with(&format!("{} — ", c)), "{}", c);
    }
    assert_eq!(explicar("K001"), Some(EXPLICACAO_K001));
    assert_eq!(explicar("K212"), Some(EXPLICACAO_K212));
    assert!(EXPLICACAO_K016.contains("fluxo"));
    assert!(EXPLICACAO_K020.contains("divisão por zero"));
}
