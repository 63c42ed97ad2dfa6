use kaju::lexer::Lexer;
use kaju::token::{Pedaco, Span, TipoToken, Token};

fn tokens(fonte: &str) -> Vec<Token> {
    Lexer::novo(fonte).tokenizar().unwrap()
}

fn tipos(fonte: &str) -> Vec<TipoToken> {
    tokens(fonte).into_iter().map(|t| t.tipo).collect()
}

#[test]
fn simbolos_compostos() {
    assert_eq!(
        tipos("+= -= *= /= %= == != <= >= << >> ... . ? : ~ ^ & |"),
        vec![
            TipoToken::MaisIgual,
            TipoToken::MenosIgual,
            TipoToken::EstrelaIgual,
            TipoToken::BarraIgual,
            TipoToken::PorcentoIgual,
            TipoToken::IgualIgual,
            TipoToken::Diferente,
            TipoToken::MenorIgual,
            TipoToken::MaiorIgual,
            TipoToken::DeslocaEsq,
            TipoToken::DeslocaDir,
            TipoToken::Reticencias,
            TipoToken::Ponto,
            TipoToken::Interrogacao,
            TipoToken::DoisPontos,
            TipoToken::Til,
            TipoToken::OuExclusivo,
            TipoToken::EBit,
            TipoToken::OuBit,
            TipoToken::FimDeArquivo,
        ]
    );
}

#[test]
fn numeros_inteiros_e_decimais() {
    assert_eq!(
        tipos("42 3.5 1. 9223372036854775807 9223372036854775808"),
        vec![
            TipoToken::Inteiro(42),
            TipoToken::Decimal("3.5".to_string()),
            TipoToken::Inteiro(1),
            TipoToken::Ponto,
            TipoToken::Inteiro(i64::MAX),
            TipoToken::Decimal("9223372036854775808".to_string()),
            TipoToken::FimDeArquivo,
        ]
    );
}

#[test]
fn textos_com_escapes() {
    assert_eq!(
        tipos(r#""a\nb\t\"c\\" "\q""#),
        vec![
            TipoToken::Texto("a\nb\t\"c\\".to_string()),
            TipoToken::Texto("\\q".to_string()),
            TipoToken::FimDeArquivo,
        ]
    );
}

#[test]
fn texto_interpolado_em_pedacos() {
    assert_eq!(
        tipos(r#"$"Oi {nome}, {{x}} {d["c"]}!""#),
        vec![
            TipoToken::TextoInterp(vec![
                Pedaco::Lit("Oi ".to_string()),
                Pedaco::Cod("nome".to_string()),
                Pedaco::Lit(", {x} ".to_string()),
                Pedaco::Cod("d[\"c\"]".to_string()),
                Pedaco::Lit("!".to_string()),
            ]),
            TipoToken::FimDeArquivo,
        ]
    );
    assert_eq!(
        tipos(r#"$"{ {1: 2}["a"] }""#),
        vec![
            TipoToken::TextoInterp(vec![Pedaco::Cod(" {1: 2}[\"a\"] ".to_string())]),
            TipoToken::FimDeArquivo,
        ]
    );
}

#[test]
fn identificadores_e_palavras_chave() {
    assert_eq!(
        tipos("var _x1 senaose ação"),
        vec![
            TipoToken::Var,
            TipoToken::Identificador("_x1".to_string()),
            TipoToken::SenaoSe,
            TipoToken::Identificador("ação".to_string()),
            TipoToken::FimDeArquivo,
        ]
    );
}

#[test]
fn posicoes_em_varias_linhas() {
    let ts = tokens("var x = \"ab\"\n  // nada\n  $\"{x}\" /* a\nb */ y");
    assert_eq!(ts[0].span, Span::novo(1, 1, 3));
    assert_eq!(ts[1].span, Span::novo(1, 5, 1));
    assert_eq!(ts[2].span, Span::novo(1, 7, 1));
    // o texto ocupa as colunas das aspas: "ab" tem 4
    assert_eq!(ts[3].span, Span::novo(1, 9, 4));
    // o texto interpolado começa no '$'
    assert_eq!(ts[4].span, Span::novo(3, 3, 6));
    assert_eq!(ts[5].span, Span::novo(4, 6, 1));
    // o fim do arquivo fica logo depois do último caractere
    assert_eq!(ts[6].tipo, TipoToken::FimDeArquivo);
    assert_eq!(ts[6].span, Span::novo(4, 7, 1));
}

#[test]
fn vazio_so_tem_o_fim() {
    assert_eq!(tipos(""), vec![TipoToken::FimDeArquivo]);
    assert_eq!(tipos("  \n\t// só comentário"), vec![TipoToken::FimDeArquivo]);
    let ts = tokens("\n\n");
    assert_eq!(ts[0].span, Span::novo(3, 1, 1));
}

#[test]
fn erros_lexicos_com_posicao() {
    let d = Lexer::novo("x\n  # y").tokenizar().unwrap_err();
    assert_eq!(d.codigo, "K101");
    assert_eq!(d.span, Span::novo(2, 3, 1));
    let d = Lexer::novo("a /* b").tokenizar().unwrap_err();
    assert_eq!(d.codigo, "K102");
    assert_eq!(d.span, Span::novo(1, 3, 2));
    let d = Lexer::novo("x = \"abc\nd\"").tokenizar().unwrap_err();
    assert_eq!(d.codigo, "K103");
    assert_eq!(d.span, Span::novo(1, 5, 1));
    let d = Lexer::novo("$\"a } b\"").tokenizar().unwrap_err();
    assert_eq!(d.codigo, "K104");
    assert_eq!(d.span, Span::novo(1, 5, 1));
    let d = Lexer::novo("x\n $\"abc").tokenizar().unwrap_err();
    assert_eq!(d.codigo, "K104");
    assert_eq!(d.span, Span::novo(2, 2, 2));
    let d = Lexer::novo("$\"a {x + 1\"").tokenizar().unwrap_err();
    assert_eq!(d.codigo, "K104");
    assert_eq!(d.span, Span::novo(1, 12, 1));
}

#[test]
fn textos_dos_erros_lexicos() {
    let d = Lexer::novo("  /* abc").tokenizar().unwrap_err();
    assert_eq!(d.codigo, "K102");
    assert_eq!(d.span, Span::novo(1, 3, 2));
    assert_eq!(d.rotulo.as_deref(), Some("este /* nunca é fechado"));
    assert_eq!(d.ajuda.as_deref(), Some("feche o comentário com */"));
    let d = Lexer::novo("!x").tokenizar().unwrap_err();
    assert_eq!(d.codigo, "K101");
    assert_eq!(d.span, Span::novo(1, 1, 1));
    assert_eq!(d.ajuda.as_deref(), Some("para 'diferente de', use '!='; para negação lógica, use 'nao'"));
    let d = Lexer::novo("@").tokenizar().unwrap_err();
    assert_eq!(d.codigo, "K101");
    assert_eq!(d.mensagem, "caractere '@' inesperado");
    assert_eq!(d.rotulo.as_deref(), Some("não faz parte da linguagem kaju aqui"));
    let d = Lexer::novo("\"abc").tokenizar().unwrap_err();
    assert_eq!(d.codigo, "K103");
    assert_eq!(d.mensagem, "texto não foi fechado com aspas");
}
