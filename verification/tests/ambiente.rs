use kaju::ambiente::{Ambiente, ResultadoAtrib, ESCOPO_GLOBAL};

#[test]
fn ler_apos_definir() {
    let mut a: Ambiente<i64> = Ambiente::global();
    a.definir(ESCOPO_GLOBAL, "x".to_string(), 10, false);
    assert_eq!(a.obter(ESCOPO_GLOBAL, "x"), Some(&10));
    assert_eq!(a.obter(ESCOPO_GLOBAL, "y"), None);
    a.definir(ESCOPO_GLOBAL, "x".to_string(), 11, false);
    assert_eq!(a.obter(ESCOPO_GLOBAL, "x"), Some(&11));
    assert_eq!(a.nomes_disponiveis(ESCOPO_GLOBAL), vec!["x".to_string()]);
}

#[test]
fn atribuir_e_constantes() {
    let mut a: Ambiente<i64> = Ambiente::global();
    a.definir(ESCOPO_GLOBAL, "pi".to_string(), 3, true);
    a.definir(ESCOPO_GLOBAL, "n".to_string(), 1, false);
    assert_eq!(a.atribuir(ESCOPO_GLOBAL, "pi", 4), ResultadoAtrib::Constante);
    assert_eq!(a.obter(ESCOPO_GLOBAL, "pi"), Some(&3));
    assert_eq!(a.atribuir(ESCOPO_GLOBAL, "n", 2), ResultadoAtrib::Feita);
    assert_eq!(a.obter(ESCOPO_GLOBAL, "n"), Some(&2));
    assert_eq!(a.atribuir(ESCOPO_GLOBAL, "z", 2), ResultadoAtrib::NaoExiste);
    assert_eq!(a.obter(ESCOPO_GLOBAL, "z"), None);
}

#[test]
fn escopos_aninhados() {
    let mut a: Ambiente<i64> = Ambiente::global();
    a.definir(ESCOPO_GLOBAL, "x".to_string(), 1, false);
    let f = a.com_pai(ESCOPO_GLOBAL);
    // o filho vê o pai
    assert_eq!(a.obter(f, "x"), Some(&1));
    // atribuir no filho muda a variável do pai
    assert_eq!(a.atribuir(f, "x", 5), ResultadoAtrib::Feita);
    assert_eq!(a.obter(ESCOPO_GLOBAL, "x"), Some(&5));
    // uma definição no filho esconde a do pai, só no filho
    a.definir(f, "x".to_string(), 9, false);
    assert_eq!(a.obter(f, "x"), Some(&9));
    assert_eq!(a.obter(ESCOPO_GLOBAL, "x"), Some(&5));
    a.definir(f, "y".to_string(), 2, false);
    assert_eq!(a.obter(ESCOPO_GLOBAL, "y"), None);
    let g = a.com_pai(f);
    assert_eq!(
        a.nomes_disponiveis(g),
        vec!["x".to_string(), "y".to_string(), "x".to_string()]
    );
    // irmãos não se veem
    let h = a.com_pai(ESCOPO_GLOBAL);
    assert_eq!(a.obter(h, "y"), None);
}

#[test]
fn descartar_o_escopo_mais_novo() {
    let mut a: Ambiente<i64> = Ambiente::global();
    a.definir(ESCOPO_GLOBAL, "x".to_string(), 1, false);
    let filho = a.com_pai(ESCOPO_GLOBAL);
    a.definir(filho, "y".to_string(), 2, false);
    assert!(a.existe(filho));
    assert!(a.descartar_ultimo());
    assert!(!a.existe(filho));
    assert_eq!(a.obter(ESCOPO_GLOBAL, "x"), Some(&1));
    // o global nunca é descartado
    assert!(!a.descartar_ultimo());
    assert!(a.existe(ESCOPO_GLOBAL));
}
