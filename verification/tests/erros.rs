use kaju::erros::{distancia_edicao, sugerir_nome, Diagnostico};
use kaju::token::Span;

#[test]
fn distancia_edicao_valores() {
    assert_eq!(distancia_edicao("kitten", "sitting"), 3);
    assert_eq!(distancia_edicao("", "abc"), 3);
    assert_eq!(distancia_edicao("abc", ""), 3);
    assert_eq!(distancia_edicao("abc", "abc"), 0);
    assert_eq!(distancia_edicao("ação", "acao"), 2);
    assert_eq!(distancia_edicao("idde", "idade"), 1);
    assert_eq!(distancia_edicao("ab", "ba"), 2);
}

#[test]
fn sugerir_nome_proximo() {
    let cs = vec!["nome".to_string(), "idade".to_string()];
    assert_eq!(sugerir_nome("idde", &cs), Some(&cs[1]));
    // nome igual não é sugestão; longe demais também não
    assert_eq!(sugerir_nome("idade", &["idade".to_string()]), None);
    assert_eq!(sugerir_nome("x", &["abcdef".to_string()]), None);
    assert_eq!(sugerir_nome("abc", &[]), None);
}

#[test]
fn sugerir_nome_empate_fica_com_o_primeiro() {
    let cs = vec!["abd".to_string(), "abe".to_string()];
    assert_eq!(sugerir_nome("abc", &cs), Some(&cs[0]));
    // o mais próximo ganha, mesmo depois
    let cs = vec!["axxxxx".to_string(), "abcdex".to_string(), "abcdef".to_string()];
    assert_eq!(sugerir_nome("abcdeg", &cs), Some(&cs[1]));
}

#[test]
fn diagnostico_construtores() {
    let d = Diagnostico::novo("K008", "expressão inesperada".to_string(), Span::novo(2, 9, 1));
    assert_eq!(d.codigo, "K008");
    assert_eq!(d.mensagem, "expressão inesperada");
    assert_eq!(d.span, Span::novo(2, 9, 1));
    assert!(d.rotulo.is_none() && d.nota.is_none() && d.ajuda.is_none());
    let d = d
        .com_rotulo("aqui".to_string())
        .com_nota("porque".to_string())
        .com_ajuda("faça assim".to_string());
    assert_eq!(d.rotulo.as_deref(), Some("aqui"));
    assert_eq!(d.nota.as_deref(), Some("porque"));
    assert_eq!(d.ajuda.as_deref(), Some("faça assim"));
}

#[test]
fn render_com_linha_do_fonte() {
    let d = Diagnostico::novo("K008", "expressão inesperada".to_string(), Span::novo(2, 9, 1))
        .com_rotulo("não esperava isto aqui".to_string())
        .com_ajuda("complete a expressão".to_string());
    let saida = d.render("a.kaju", "var a = 1\nvar b = )\n");
    assert_eq!(
        saida,
        "erro[K008]: expressão inesperada\n \
--> a.kaju:2:9\n  |\n2 | var b = )\n  |         ^ não esperava isto aqui\n  |\najuda: complete a expressão\n"
    );
}

#[test]
fn render_sem_linha_e_com_nota() {
    let d = Diagnostico::novo("K001", "variável 'x' não definida".to_string(), Span::novo(12, 1, 0))
        .com_nota("n".to_string());
    let saida = d.render("p.kaju", "x\n");
    assert_eq!(
        saida,
        "erro[K001]: variável 'x' não definida\n  --> p.kaju:12:1\n   |\n   |\nnota: n\n"
    );
}

#[test]
fn render_coluna_zero_e_crlf() {
    let d = Diagnostico::novo("K101", "m".to_string(), Span::novo(1, 0, 3));
    let saida = d.render("f", "abc\r\ndef");
    assert_eq!(saida, "erro[K101]: m\n --> f:1:0\n  |\n1 | abc\n  | ^^^\n  |\n");
    let d = Diagnostico::novo("K101", "m".to_string(), Span::novo(2, 2, 1));
    let saida = d.render("f", "abc\r\ndef\r");
    assert_eq!(saida, "erro[K101]: m\n --> f:2:2\n  |\n2 | def\r\n  |  ^\n  |\n");
}

#[test]
fn distancia_simetrica_e_zero_so_entre_iguais() {
    for (a, b) in [("casa", "asa"), ("", "xyz"), ("kaju", "caju"), ("ab", "abc")] {
        assert_eq!(distancia_edicao(a, b), distancia_edicao(b, a));
        assert!(distancia_edicao(a, b) > 0);
    }
    assert_eq!(distancia_edicao("mesmo", "mesmo"), 0);
}
