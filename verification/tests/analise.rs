use kaju::ast::{aceita_argumentos, Cmd, Expr, OpBinaria, OpLogica, OpUnaria};
use kaju::lexer::Lexer;
use kaju::parser::{unir_span, Parser};
use kaju::programa::{analisar_fonte, delimitadores_fechados, entrada_completa};
use kaju::token::{palavra_chave, Span, TipoToken};

fn tipos(fonte: &str) -> Vec<TipoToken> {
    Lexer::novo(fonte).tokenizar().unwrap().into_iter().map(|t| t.tipo).collect()
}

fn codigo_lexico(fonte: &str) -> String {
    Lexer::novo(fonte).tokenizar().unwrap_err().codigo
}

fn codigos(fonte: &str) -> Vec<String> {
    analisar_fonte(fonte).unwrap_err().into_iter().map(|d| d.codigo).collect()
}

#[test]
fn lexer_declaracao() {
    assert_eq!(
        tipos("var x = 10"),
        vec![
            TipoToken::Var,
            TipoToken::Identificador("x".to_string()),
            TipoToken::Igual,
            TipoToken::Inteiro(10),
            TipoToken::FimDeArquivo,
        ]
    );
}

#[test]
fn lexer_decimal_texto_e_comentarios() {
    assert_eq!(
        tipos("3.14 \"oi\" // nada\n/* bloco */ x"),
        vec![
            TipoToken::Decimal("3.14".to_string()),
            TipoToken::Texto("oi".to_string()),
            TipoToken::Identificador("x".to_string()),
            TipoToken::FimDeArquivo,
        ]
    );
}

#[test]
fn lexer_posicoes() {
    let ts = Lexer::novo("a\n  bc").tokenizar().unwrap();
    assert_eq!(ts[0].span, Span::novo(1, 1, 1));
    assert_eq!(ts[1].span, Span::novo(2, 3, 2));
    assert_eq!(ts[1].lexema, "bc");
}

#[test]
fn lexer_erros() {
    assert_eq!(codigo_lexico("var x = 1 ! 2"), "K101");
    assert_eq!(codigo_lexico("x @ y"), "K101");
    assert_eq!(codigo_lexico("/* sem fim"), "K102");
    assert_eq!(codigo_lexico("\"sem fim"), "K103");
    assert_eq!(codigo_lexico("$\"sem fim"), "K104");
    assert_eq!(codigo_lexico("$\"a {x\""), "K104");
}

#[test]
fn palavras_chave() {
    assert_eq!(palavra_chave("var"), Some(TipoToken::Var));
    assert_eq!(palavra_chave("enquanto"), Some(TipoToken::Enquanto));
    assert_eq!(palavra_chave("senaose"), Some(TipoToken::SenaoSe));
    assert_eq!(palavra_chave("variavel"), None);
    assert_eq!(palavra_chave(""), None);
}

#[test]
fn parser_programa_valido() {
    let cmds = analisar_fonte("var a = 1 + 2 * 3\nfuncao f(x) { retorne x }\n").unwrap();
    assert_eq!(cmds.len(), 2);
    match &cmds[0] {
        Cmd::DeclVar { nome, valor, constante, .. } => {
            assert_eq!(nome, "a");
            assert!(!constante);
            match valor {
                Expr::Binaria { op, .. } => assert_eq!(*op, OpBinaria::Soma),
                outro => panic!("esperava soma, veio {:?}", outro),
            }
        }
        outro => panic!("esperava declaração, veio {:?}", outro),
    }
    assert!(matches!(cmds[1], Cmd::DeclFuncao { .. }));
}

#[test]
fn parser_relata_varios_erros() {
    let cs = codigos("var a = )\nvar b = )");
    assert!(cs.iter().filter(|c| c.as_str() == "K008").count() >= 2, "{cs:?}");
}

#[test]
fn erro_pare_fora_de_laco() {
    assert!(codigos("escreva(1)\npare").contains(&"K016".to_string()));
}

#[test]
fn erro_retorne_fora_de_funcao() {
    assert!(codigos("retorne 5").contains(&"K016".to_string()));
}

#[test]
fn pare_dentro_de_funcao_sem_laco_falha() {
    assert!(codigos("funcao f() { pare }\nf()").contains(&"K016".to_string()));
}

#[test]
fn pare_dentro_de_laco_vale() {
    assert!(analisar_fonte("enquanto verdadeiro { pare }").is_ok());
    assert!(analisar_fonte("funcao f() { enquanto verdadeiro { retorne 1 } }").is_ok());
}

#[test]
fn erro_lexico_vira_um_diagnostico() {
    let ds = analisar_fonte("var x = \"aberto").unwrap_err();
    assert_eq!(ds.len(), 1);
    assert_eq!(ds[0].codigo, "K103");
}

#[test]
fn erros_de_declaracao() {
    assert!(codigos("var = 10").contains(&"K002".to_string()));
    assert!(codigos("var x 10").contains(&"K003".to_string()));
}

#[test]
fn analisar_expressao_sozinha() {
    let ts = Lexer::novo("1 + 2").tokenizar().unwrap();
    let e = Parser::novo(ts).analisar_expressao().unwrap();
    assert!(matches!(e, Expr::Binaria { op: OpBinaria::Soma, .. }));
}

#[test]
fn unir_span_mesma_linha() {
    let a = Span::novo(1, 3, 2);
    let b = Span::novo(1, 8, 4);
    assert_eq!(unir_span(&a, &b), Span::novo(1, 3, 9));
}

#[test]
fn entrada_completa_repl() {
    assert!(!entrada_completa("se x {"));
    assert!(entrada_completa("se x { }"));
    assert!(!entrada_completa("f(1,"));
    assert!(!entrada_completa("[1, [2]"));
    assert!(entrada_completa("escreva(1)"));
    assert!(entrada_completa("\"aberto"));
    assert!(entrada_completa("}"));
    // chaves dentro de texto não contam
    assert!(entrada_completa("escreva(\"{\")"));
}

#[test]
fn delimitadores_de_tokens() {
    let ts = Lexer::novo("( [ {").tokenizar().unwrap();
    assert!(!delimitadores_fechados(&ts));
    let ts = Lexer::novo("( ) ] }").tokenizar().unwrap();
    assert!(delimitadores_fechados(&ts));
}

#[test]
fn todo_erro_de_analise_tem_explicacao() {
    let programas = [
        "var = 1",
        "var x 1",
        "funcao f(a { }",
        "se x { ",
        "para i 1 ate 3 { }",
        "1 = 2",
        "var x = )",
        "var d = {1: 2}",
        "x.",
        "classe { }",
        "novo 5",
        "tente { } x",
        "pare",
        "importe 5",
        "escreva($\"{1 +}\")",
        "var y = x ? 1",
        "escolha x { 1 }",
        "!",
        "/* aberto",
        "\"aberto",
        "$\"aberto",
    ];
    for p in programas {
        let ds = analisar_fonte(p).unwrap_err();
        assert!(!ds.is_empty());
        for d in ds {
            assert!(
                kaju::explicacoes::explicar(&d.codigo).is_some(),
                "o código {} (de {:?}) não tem explicação",
                d.codigo,
                p
            );
        }
    }
}

#[test]
fn parametros_fora_de_ordem() {
    assert!(codigos("funcao f(a = 1, b) { }").contains(&"K004".to_string()));
    assert!(codigos("funcao f(...a, b) { }").contains(&"K004".to_string()));
    assert!(codigos("funcao f(...a = 1) { }").contains(&"K004".to_string()));
    assert!(analisar_fonte("funcao f(a, b = 1, ...c) { }").is_ok());
    match &analisar_fonte("funcao f(a, b = 1, ...c) { }").unwrap()[0] {
        Cmd::DeclFuncao { params, .. } => {
            assert_eq!(params.len(), 3);
            assert!(params[0].padrao.is_none() && !params[0].variadico);
            assert!(params[1].padrao.is_some() && !params[1].variadico);
            assert!(params[2].padrao.is_none() && params[2].variadico);
        }
        outro => panic!("esperava função, veio {:?}", outro),
    }
}

#[test]
fn comandos_pelo_primeiro_token() {
    let cmds = analisar_fonte(
        "constante a = 1\nvar b, c = 1, 2\nimporte \"m.kaju\" como m\nclasse K { }\nse a { }\nenquanto falso { }\npara i de 1 ate 2 { }\npara cada x em [1] { }\ntente { } capture (erro) { }\nlance 1\nescolha a { caso 1 { } }\nb, c = c, b\nescreva(a)",
    )
    .unwrap();
    assert!(matches!(cmds[0], Cmd::DeclVar { constante: true, .. }));
    assert!(matches!(cmds[1], Cmd::DeclVarMulti { constante: false, .. }));
    assert!(matches!(cmds[2], Cmd::Importe { .. }));
    assert!(matches!(cmds[3], Cmd::DeclClasse { .. }));
    assert!(matches!(cmds[4], Cmd::Se { .. }));
    assert!(matches!(cmds[5], Cmd::Enquanto { .. }));
    assert!(matches!(cmds[6], Cmd::ParaNumerico { .. }));
    assert!(matches!(cmds[7], Cmd::ParaCada { .. }));
    assert!(matches!(cmds[8], Cmd::Tente { .. }));
    assert!(matches!(cmds[9], Cmd::Lance(..)));
    assert!(matches!(cmds[10], Cmd::Escolha { .. }));
    assert!(matches!(cmds[11], Cmd::AtribMulti { .. }));
    assert!(matches!(cmds[12], Cmd::Expressao(..)));
}

#[test]
fn expressoes_primarias() {
    let cmds = analisar_fonte("x\n3.5\n\"t\"\nverdadeiro\nnulo").unwrap();
    assert!(matches!(&cmds[0], Cmd::Expressao(Expr::Variavel(n, _)) if n == "x"));
    assert!(matches!(&cmds[1], Cmd::Expressao(Expr::Decimal(d, _)) if d == "3.5"));
    assert!(matches!(&cmds[2], Cmd::Expressao(Expr::Texto(t, _)) if t == "t"));
    assert!(matches!(&cmds[3], Cmd::Expressao(Expr::Booleano(true, _))));
    assert!(matches!(&cmds[4], Cmd::Expressao(Expr::Nulo(_))));
    let ds = analisar_fonte("var x = ]").unwrap_err();
    assert_eq!(ds[0].codigo, "K008");
    assert_eq!(ds[0].span, Span::novo(1, 9, 1));
}

fn expressao(fonte: &str) -> Expr {
    let ts = Lexer::novo(fonte).tokenizar().unwrap();
    Parser::novo(ts).analisar_expressao().unwrap()
}

fn inteiro(e: &Expr) -> i64 {
    match e {
        Expr::Inteiro(n, _) => *n,
        _ => panic!("esperava um inteiro"),
    }
}

#[test]
fn precedencia_e_associatividade() {
    // 1 + 2 * 3  ==  1 + (2 * 3)
    match expressao("1 + 2 * 3") {
        Expr::Binaria { op: OpBinaria::Soma, esq, dir, span } => {
            assert_eq!(inteiro(&esq), 1);
            assert!(matches!(*dir, Expr::Binaria { op: OpBinaria::Multiplicacao, .. }));
            assert_eq!(span, Span::novo(1, 1, 9));
        }
        _ => panic!("esperava uma soma"),
    }
    // 8 - 4 - 2  ==  (8 - 4) - 2
    match expressao("8 - 4 - 2") {
        Expr::Binaria { op: OpBinaria::Subtracao, esq, dir, .. } => {
            assert!(matches!(*esq, Expr::Binaria { op: OpBinaria::Subtracao, .. }));
            assert_eq!(inteiro(&dir), 2);
        }
        _ => panic!("esperava uma subtração"),
    }
    // a ou b e c  ==  a ou (b e c)
    match expressao("a ou b e c") {
        Expr::Logica { op: OpLogica::Ou, dir, .. } => {
            assert!(matches!(*dir, Expr::Logica { op: OpLogica::E, .. }));
        }
        _ => panic!("esperava um 'ou'"),
    }
    // 1 < 2 == verdadeiro  ==  (1 < 2) == verdadeiro
    match expressao("1 < 2 == verdadeiro") {
        Expr::Binaria { op: OpBinaria::Igual, esq, .. } => {
            assert!(matches!(*esq, Expr::Binaria { op: OpBinaria::Menor, .. }));
        }
        _ => panic!("esperava uma igualdade"),
    }
    // -x * 2  ==  (-x) * 2 ; (1 + 2) * 3 respeita os parênteses
    assert!(matches!(expressao("-x * 2"), Expr::Binaria { op: OpBinaria::Multiplicacao, esq, .. }
        if matches!(*esq, Expr::Unaria { op: OpUnaria::Negativo, .. })));
    assert!(matches!(expressao("(1 + 2) * 3"), Expr::Binaria { op: OpBinaria::Multiplicacao, esq, .. }
        if matches!(*esq, Expr::Binaria { op: OpBinaria::Soma, .. })));
    // 1 | 2 ^ 3 & 4  ==  1 | (2 ^ (3 & 4))
    assert!(matches!(expressao("1 | 2 ^ 3 & 4"), Expr::Binaria { op: OpBinaria::OuBit, dir, .. }
        if matches!(*dir, Expr::Binaria { op: OpBinaria::XorBit, .. })));
}

#[test]
fn ternario_sufixos_e_atribuicao() {
    // a ? b : c ? d : f  ==  a ? b : (c ? d : e)
    match expressao("a ? b : c ? d : f") {
        Expr::Ternario { senao, .. } => assert!(matches!(*senao, Expr::Ternario { .. })),
        _ => panic!("esperava um ternário"),
    }
    match expressao("p.x[0]") {
        Expr::Indice { alvo, indice, .. } => {
            assert!(matches!(*alvo, Expr::Acesso { ref membro, .. } if membro == "x"));
            assert_eq!(inteiro(&indice), 0);
        }
        _ => panic!("esperava uma indexação"),
    }
    // a = b = 1  ==  a = (b = 1)
    match expressao("a = b = 1") {
        Expr::Atribuicao { nome, valor, .. } => {
            assert_eq!(nome, "a");
            assert!(matches!(*valor, Expr::Atribuicao { ref nome, .. } if nome == "b"));
        }
        _ => panic!("esperava uma atribuição"),
    }
    assert!(matches!(expressao("v[1] = 2"), Expr::AtribIndice { .. }));
    assert!(matches!(expressao("o.campo = 2"), Expr::AtribCampo { .. }));
    let ts = Lexer::novo("1 2").tokenizar().unwrap();
    assert!(Parser::novo(ts).analisar_expressao().is_err());
}

#[test]
fn atribuicao_composta_vira_operacao() {
    // x += 2  ==  x = x + 2, com o span indo do alvo ao fim do valor
    match expressao("x += 2") {
        Expr::Atribuicao { nome, valor, span } => {
            assert_eq!(nome, "x");
            assert_eq!(span, Span::novo(1, 1, 6));
            match *valor {
                Expr::Binaria { op, esq, dir, span } => {
                    assert_eq!(op, OpBinaria::Soma);
                    assert!(matches!(*esq, Expr::Variavel(ref n, _) if n == "x"));
                    assert_eq!(inteiro(&dir), 2);
                    assert_eq!(span, Span::novo(1, 1, 6));
                }
                _ => panic!("esperava a operação"),
            }
        }
        _ => panic!("esperava uma atribuição"),
    }
    assert!(matches!(expressao("v[0] -= 1"), Expr::AtribIndice { valor, .. } if matches!(*valor, Expr::Binaria { op: OpBinaria::Subtracao, .. })));
    assert!(matches!(expressao("o.n *= 3"), Expr::AtribCampo { valor, .. } if matches!(*valor, Expr::Binaria { op: OpBinaria::Multiplicacao, .. })));
    assert!(matches!(expressao("a /= 2"), Expr::Atribuicao { valor, .. } if matches!(*valor, Expr::Binaria { op: OpBinaria::Divisao, .. })));
    // a %= b += 1  ==  a = a % (b = b + 1)
    match expressao("a %= b += 1") {
        Expr::Atribuicao { valor, .. } => match *valor {
            Expr::Binaria { op: OpBinaria::Resto, dir, .. } => {
                assert!(matches!(*dir, Expr::Atribuicao { ref nome, .. } if nome == "b"))
            }
            _ => panic!("esperava o resto"),
        },
        _ => panic!("esperava uma atribuição"),
    }
    // o alvo tem de ser um nome, um índice ou um campo
    let ts = Lexer::novo("1 += 2").tokenizar().unwrap();
    let e = Parser::novo(ts).analisar_expressao().unwrap_err();
    assert_eq!(e.codigo, "K007");
}

#[test]
fn funcao_com_parametros_e_corpo() {
    let cmds = analisar_fonte("funcao soma(a, b) {\n  retorne a + b\n}\nfuncao nada() { }").unwrap();
    assert_eq!(cmds.len(), 2);
    match &cmds[0] {
        Cmd::DeclFuncao { nome, params, corpo, span } => {
            assert_eq!(nome, "soma");
            assert_eq!(*span, Span::novo(1, 1, 6));
            let nomes: Vec<&str> = params.iter().map(|p| p.nome.as_str()).collect();
            assert_eq!(nomes, vec!["a", "b"]);
            assert!(params.iter().all(|p| p.padrao.is_none() && !p.variadico));
            assert_eq!(corpo.len(), 1);
            assert!(matches!(&corpo[0], Cmd::Retorne(Some(Expr::Binaria { op: OpBinaria::Soma, .. }), s) if *s == Span::novo(2, 3, 7)));
        }
        _ => panic!("esperava uma função"),
    }
    assert!(matches!(&cmds[1], Cmd::DeclFuncao { nome, params, corpo, .. } if nome == "nada" && params.is_empty() && corpo.is_empty()));
}

#[test]
fn tente_capture_finalmente() {
    let cmds = analisar_fonte("tente { lance \"x\" } capture (falha) { falha } finalmente { 1 }\ntente { } capture (erro) { }").unwrap();
    assert_eq!(cmds.len(), 2);
    match &cmds[0] {
        Cmd::Tente { corpo, erro_nome, captura, finalmente } => {
            assert!(matches!(&corpo[..], [Cmd::Lance(Expr::Texto(t, _), _)] if t == "x"));
            assert_eq!(erro_nome, "falha");
            assert!(matches!(&captura[..], [Cmd::Expressao(Expr::Variavel(n, _))] if n == "falha"));
            assert!(matches!(finalmente.as_deref(), Some([Cmd::Expressao(Expr::Inteiro(1, _))])));
        }
        _ => panic!("esperava um tente"),
    }
    assert!(matches!(&cmds[1], Cmd::Tente { corpo, erro_nome, captura, finalmente: None } if corpo.is_empty() && erro_nome == "erro" && captura.is_empty()));
    assert_eq!(codigos("tente { } capture e { }")[0], "K015");
}

#[test]
fn classe_com_membros() {
    let fonte = "classe Conta herda Base {\n  construtor(saldo) { isto.saldo = saldo }\n  metodo depositar(v) { isto.saldo += v }\n  estatico total = 0\n  estatico metodo criar() { retorne novo Conta(0) }\n  metodo saldo() { retorne isto.saldo }\n}";
    let cmds = analisar_fonte(fonte).unwrap();
    assert_eq!(cmds.len(), 1);
    match &cmds[0] {
        Cmd::DeclClasse { nome, superclasse, construtor, metodos, metodos_estaticos, campos_estaticos, span } => {
            assert_eq!(nome, "Conta");
            assert_eq!(superclasse.as_deref(), Some("Base"));
            assert_eq!(*span, Span::novo(1, 1, 6));
            let c = construtor.as_ref().unwrap();
            assert_eq!(c.nome, "construtor");
            assert_eq!(c.params.len(), 1);
            assert_eq!(c.params[0].nome, "saldo");
            assert!(matches!(&c.corpo[..], [Cmd::Expressao(Expr::AtribCampo { .. })]));
            let nomes: Vec<&str> = metodos.iter().map(|m| m.nome.as_str()).collect();
            assert_eq!(nomes, vec!["depositar", "saldo"]);
            assert!(matches!(&metodos[0].corpo[..], [Cmd::Expressao(Expr::AtribCampo { valor, .. })] if matches!(**valor, Expr::Binaria { op: OpBinaria::Soma, .. })));
            assert_eq!(metodos_estaticos.len(), 1);
            assert_eq!(metodos_estaticos[0].nome, "criar");
            assert!(metodos_estaticos[0].params.is_empty());
            assert_eq!(campos_estaticos.len(), 1);
            assert_eq!(campos_estaticos[0].0, "total");
            assert!(matches!(campos_estaticos[0].1, Expr::Inteiro(0, _)));
        }
        _ => panic!("esperava uma classe"),
    }
    // sem superclasse, vazia; e o último construtor declarado é o que fica
    let cmds = analisar_fonte("classe A { }\nclasse B { construtor() { 1 } construtor(x) { 2 } }").unwrap();
    assert!(matches!(&cmds[0], Cmd::DeclClasse { superclasse: None, construtor: None, metodos, .. } if metodos.is_empty()));
    match &cmds[1] {
        Cmd::DeclClasse { construtor: Some(c), .. } => {
            assert_eq!(c.params.len(), 1);
            assert!(matches!(&c.corpo[..], [Cmd::Expressao(Expr::Inteiro(2, _))]));
        }
        _ => panic!("esperava o construtor"),
    }
    assert_eq!(codigos("classe C { var x = 1 }")[0], "K013");
}

#[test]
fn escolha_com_casos_e_padrao() {
    let cmds = analisar_fonte("escolha x + 1 {\n  caso 1, 2 { a }\n  caso 3 { }\n  padrao { b }\n}").unwrap();
    assert_eq!(cmds.len(), 1);
    match &cmds[0] {
        Cmd::Escolha { valor, casos, padrao } => {
            assert!(matches!(valor, Expr::Binaria { op: OpBinaria::Soma, .. }));
            assert_eq!(casos.len(), 2);
            let v0: Vec<i64> = casos[0].valores.iter().map(inteiro).collect();
            assert_eq!(v0, vec![1, 2]);
            assert!(matches!(&casos[0].corpo[..], [Cmd::Expressao(Expr::Variavel(n, _))] if n == "a"));
            let v1: Vec<i64> = casos[1].valores.iter().map(inteiro).collect();
            assert_eq!(v1, vec![3]);
            assert!(casos[1].corpo.is_empty());
            assert!(matches!(padrao.as_deref(), Some([Cmd::Expressao(Expr::Variavel(n, _))]) if n == "b"));
        }
        _ => panic!("esperava um escolha"),
    }
    assert!(matches!(&analisar_fonte("escolha v { }").unwrap()[0], Cmd::Escolha { casos, padrao: None, .. } if casos.is_empty()));
    assert_eq!(codigos("escolha v { padrao { } padrao { } }")[0], "K021");
    assert_eq!(codigos("escolha v { 1 }")[0], "K021");
}

#[test]
fn parametros_com_padrao_e_variadico() {
    let cmds = analisar_fonte("funcao f(a, b = 2, c = a + 1, ...resto) { }").unwrap();
    match &cmds[0] {
        Cmd::DeclFuncao { params, .. } => {
            let nomes: Vec<&str> = params.iter().map(|p| p.nome.as_str()).collect();
            assert_eq!(nomes, vec!["a", "b", "c", "resto"]);
            assert!(params[0].padrao.is_none() && !params[0].variadico);
            assert!(matches!(params[1].padrao, Some(Expr::Inteiro(2, _))));
            assert!(matches!(params[2].padrao, Some(Expr::Binaria { op: OpBinaria::Soma, .. })));
            assert!(params[3].padrao.is_none() && params[3].variadico);
        }
        _ => panic!("esperava uma função"),
    }
    // sem padrão depois de um com padrão, e variádico que não é o último
    assert_eq!(codigos("funcao g(a = 1, b) { }")[0], "K004");
    assert_eq!(codigos("funcao h(...r, x) { }")[0], "K004");
}

#[test]
fn desempacotamento_e_atribuicao_multipla() {
    let cmds = analisar_fonte("var a, b = 1, 2\nconstante c, d = lista\na, b = b, a").unwrap();
    assert_eq!(cmds.len(), 3);
    match &cmds[0] {
        Cmd::DeclVarMulti { nomes, valores, constante, span } => {
            assert_eq!(nomes, &vec!["a".to_string(), "b".to_string()]);
            let vs: Vec<i64> = valores.iter().map(inteiro).collect();
            assert_eq!(vs, vec![1, 2]);
            assert!(!constante);
            assert_eq!(*span, Span::novo(1, 1, 3));
        }
        _ => panic!("esperava um desempacotamento"),
    }
    assert!(matches!(&cmds[1], Cmd::DeclVarMulti { nomes, valores, constante: true, .. } if nomes.len() == 2 && valores.len() == 1));
    match &cmds[2] {
        Cmd::AtribMulti { nomes, valores, span } => {
            assert_eq!(nomes, &vec!["a".to_string(), "b".to_string()]);
            assert!(matches!(&valores[..], [Expr::Variavel(x, _), Expr::Variavel(y, _)] if x == "b" && y == "a"));
            assert_eq!(*span, Span::novo(3, 1, 1));
        }
        _ => panic!("esperava uma atribuição múltipla"),
    }
    assert_eq!(codigos("var a, 1 = 2")[0], "K002");
    assert_eq!(codigos("a, 1 = 2")[0], "K022");
}

#[test]
fn programa_de_comandos_simples() {
    let cmds = analisar_fonte("var x = 1 + 2\nconstante y = x * 3\nx = y - 1\ny").unwrap();
    assert_eq!(cmds.len(), 4);
    match &cmds[0] {
        Cmd::DeclVar { nome, valor, constante, span } => {
            assert_eq!(nome, "x");
            assert!(!constante);
            assert!(matches!(valor, Expr::Binaria { op: OpBinaria::Soma, .. }));
            assert_eq!(*span, Span::novo(1, 1, 13));
        }
        _ => panic!("esperava uma declaração"),
    }
    assert!(matches!(&cmds[1], Cmd::DeclVar { constante: true, valor: Expr::Binaria { op: OpBinaria::Multiplicacao, .. }, .. }));
    assert!(matches!(&cmds[2], Cmd::Expressao(Expr::Atribuicao { nome, .. }) if nome == "x"));
    assert!(matches!(&cmds[3], Cmd::Expressao(Expr::Variavel(n, _)) if n == "y"));
}

#[test]
fn declaracoes_com_campos_exatos() {
    let cmds = analisar_fonte(
        "importe \"util.kaju\" como u\nimporte \"mat.kaju\"\nclasse Gato herda Animal { }\nfuncao f(a) { retorne a + 1 }\npara i de 0 ate n { }\npara cada x em xs { }\nlance \"ops\"",
    )
    .unwrap();
    match &cmds[0] {
        Cmd::Importe { caminho, alias, .. } => {
            assert_eq!(caminho, "util.kaju");
            assert_eq!(alias.as_deref(), Some("u"));
        }
        _ => panic!("esperava importe"),
    }
    assert!(matches!(&cmds[1], Cmd::Importe { alias: None, .. }));
    match &cmds[2] {
        Cmd::DeclClasse { nome, superclasse, .. } => {
            assert_eq!(nome, "Gato");
            assert_eq!(superclasse.as_deref(), Some("Animal"));
        }
        _ => panic!("esperava classe"),
    }
    match &cmds[3] {
        Cmd::DeclFuncao { nome, corpo, .. } => {
            assert_eq!(nome, "f");
            assert!(matches!(&corpo[0], Cmd::Retorne(Some(Expr::Binaria { op: OpBinaria::Soma, .. }), _)));
        }
        _ => panic!("esperava função"),
    }
    assert!(matches!(&cmds[4], Cmd::ParaNumerico { variavel, de: Expr::Inteiro(0, _), ate: Expr::Variavel(n, _), passo: None, .. }
        if variavel == "i" && n == "n"));
    assert!(matches!(&cmds[5], Cmd::ParaCada { variavel, iteravel: Expr::Variavel(xs, _), .. } if variavel == "x" && xs == "xs"));
    assert!(matches!(&cmds[6], Cmd::Lance(Expr::Texto(t, _), _) if t == "ops"));
    let ds = analisar_fonte("importe util").unwrap_err();
    assert_eq!(ds[0].codigo, "K017");
}

#[test]
fn colecoes_chamadas_e_novo() {
    match expressao("f(1, [2, 3], {\"a\": 4})") {
        Expr::Chamada { alvo, args, .. } => {
            assert!(matches!(*alvo, Expr::Variavel(ref n, _) if n == "f"));
            assert_eq!(args.len(), 3);
            assert_eq!(inteiro(&args[0]), 1);
            assert!(matches!(&args[1], Expr::Lista(itens, _) if itens.len() == 2));
            assert!(matches!(&args[2], Expr::Dicionario(pares, _) if pares.len() == 1));
        }
        _ => panic!("esperava uma chamada"),
    }
    match expressao("novo geo.Ponto(1, 2).x") {
        Expr::Acesso { alvo, membro, .. } => {
            assert_eq!(membro, "x");
            match *alvo {
                Expr::Novo { classe, args, .. } => {
                    assert!(matches!(*classe, Expr::Acesso { ref membro, .. } if membro == "Ponto"));
                    assert_eq!(args.len(), 2);
                }
                _ => panic!("esperava um novo"),
            }
        }
        _ => panic!("esperava um acesso"),
    }
    assert!(matches!(expressao("g()"), Expr::Chamada { args, .. } if args.is_empty()));
    assert!(matches!(expressao("[]"), Expr::Lista(itens, _) if itens.is_empty()));
    assert!(matches!(expressao("{}"), Expr::Dicionario(pares, _) if pares.is_empty()));
}

#[test]
fn blocos_de_controle() {
    let fonte = "var i = 0\nenquanto i < 3 {\n  se i == 1 { pare } senao se i == 2 { continue } senao { i = i + 1 }\n}\npara j de 1 ate 10 passo 2 { escreva(j) }";
    let cmds = analisar_fonte(fonte).unwrap();
    assert_eq!(cmds.len(), 3);
    match &cmds[1] {
        Cmd::Enquanto { condicao, corpo } => {
            assert!(matches!(condicao, Expr::Binaria { op: OpBinaria::Menor, .. }));
            assert_eq!(corpo.len(), 1);
            match &corpo[0] {
                Cmd::Se { entao, senao: Some(senao), .. } => {
                    assert!(matches!(&entao[0], Cmd::Pare(_)));
                    assert_eq!(senao.len(), 1);
                    assert!(matches!(&senao[0], Cmd::Se { senao: Some(_), .. }));
                }
                _ => panic!("esperava um se"),
            }
        }
        _ => panic!("esperava um enquanto"),
    }
    match &cmds[2] {
        Cmd::ParaNumerico { variavel, passo: Some(Expr::Inteiro(2, _)), corpo, .. } => {
            assert_eq!(variavel, "j");
            assert!(matches!(&corpo[0], Cmd::Expressao(Expr::Chamada { .. })));
        }
        _ => panic!("esperava um para"),
    }
}

#[test]
fn interpolacao_soma_as_partes_em_ordem() {
    let s = Span::novo(1, 1, 9);
    match expressao("$\"{1}{2}\"") {
        Expr::Binaria { op: OpBinaria::Soma, esq, dir, span } => {
            assert_eq!(span, s);
            assert!(matches!(*dir, Expr::Inteiro(2, _)));
            match *esq {
                Expr::Binaria { op: OpBinaria::Soma, esq, dir, span } => {
                    assert_eq!(span, s);
                    assert!(matches!(*esq, Expr::Texto(ref t, sp) if t.is_empty() && sp == s));
                    assert!(matches!(*dir, Expr::Inteiro(1, _)));
                }
                _ => panic!("esperava a primeira soma"),
            }
        }
        _ => panic!("esperava uma soma"),
    }
    match expressao("$\"a{x}b\"") {
        Expr::Binaria { esq, dir, .. } => {
            assert!(matches!(*dir, Expr::Texto(ref t, _) if t == "b"));
            assert!(matches!(*esq, Expr::Binaria { ref dir, .. } if matches!(**dir, Expr::Variavel(ref n, _) if n == "x")));
        }
        _ => panic!("esperava uma soma"),
    }
}

#[test]
fn erros_com_recuperacao_e_controle_de_fluxo() {
    let ds = analisar_fonte("var a = )\nvar b = )").unwrap_err();
    assert_eq!(ds.len(), 2);
    assert_eq!(ds[0].codigo, "K008");
    assert_eq!(ds[0].span, Span::novo(1, 9, 1));
    assert_eq!(ds[1].codigo, "K008");
    assert_eq!(ds[1].span, Span::novo(2, 9, 1));
    let ds = analisar_fonte("escreva(1)\npare").unwrap_err();
    assert_eq!(ds.len(), 1);
    assert_eq!(ds[0].codigo, "K016");
    let ds = analisar_fonte("funcao f() { pare }\nf()").unwrap_err();
    assert_eq!(ds.len(), 1);
    assert_eq!(ds[0].codigo, "K016");
    let ds = analisar_fonte("retorne 5").unwrap_err();
    assert_eq!(ds[0].codigo, "K016");
    assert_eq!(ds[0].span, Span::novo(1, 1, 7));
    assert!(analisar_fonte("funcao f() { retorne 5 }").is_ok());
}

#[test]
fn sobra_e_alvo_invalido() {
    let ts = Lexer::novo("a b").tokenizar().unwrap();
    let d = Parser::novo(ts).analisar_expressao().unwrap_err();
    assert_eq!(d.codigo, "K018");
    assert_eq!(d.span, Span::novo(1, 3, 1));
    let ts = Lexer::novo("3 = x").tokenizar().unwrap();
    let d = Parser::novo(ts).analisar_expressao().unwrap_err();
    assert_eq!(d.codigo, "K007");
    assert_eq!(d.span, Span::novo(1, 3, 1));
}

#[test]
fn erros_dentro_de_blocos_de_controle() {
    let ds = analisar_fonte("se x { pare }").unwrap_err();
    assert_eq!(ds.len(), 1);
    assert_eq!(ds[0].codigo, "K016");
    assert_eq!(ds[0].span, Span::novo(1, 8, 4));
    assert!(analisar_fonte("enquanto x { pare }").is_ok());
    let ds = analisar_fonte("enquanto x { retorne 1 }").unwrap_err();
    assert_eq!(ds[0].codigo, "K016");
    assert_eq!(ds[0].span, Span::novo(1, 14, 7));
}

#[test]
fn funcao_anonima_com_parametros_e_corpo() {
    let cmds = analisar_fonte("var f = funcao(x, y = 2) {\n  retorne x + y\n}\nfuncao() { }").unwrap();
    assert_eq!(cmds.len(), 2);
    match &cmds[0] {
        Cmd::DeclVar { nome, valor: Expr::FuncaoAnon { params, corpo, span }, .. } => {
            assert_eq!(nome, "f");
            assert_eq!(*span, Span::novo(1, 9, 6));
            let nomes: Vec<&str> = params.iter().map(|p| p.nome.as_str()).collect();
            assert_eq!(nomes, vec!["x", "y"]);
            assert!(params[0].padrao.is_none());
            assert!(matches!(params[1].padrao, Some(Expr::Inteiro(2, _))));
            assert!(matches!(&corpo[..], [Cmd::Retorne(Some(Expr::Binaria { op: OpBinaria::Soma, .. }), _)]));
        }
        _ => panic!("esperava uma função anônima"),
    }
    assert!(matches!(&cmds[1], Cmd::Expressao(Expr::FuncaoAnon { params, corpo, .. }) if params.is_empty() && corpo.is_empty()));
    // parâmetros inválidos numa função anônima dão o mesmo erro
    assert_eq!(codigos("var g = funcao(a = 1, b) { }")[0], "K004");
}

#[test]
fn interpolacao_de_trechos_analisaveis_e_aceita() {
    let mut p = Parser::novo(Lexer::novo("$\"{1}{2}\"").tokenizar().unwrap());
    let s = Span::novo(1, 1, 9);
    match p.analisar_expressao().unwrap() {
        Expr::Binaria { op: OpBinaria::Soma, esq, dir, span } => {
            assert_eq!(span, s);
            assert!(matches!(*dir, Expr::Inteiro(2, _)));
            match *esq {
                Expr::Binaria { op: OpBinaria::Soma, esq: a, dir: b, span: s2 } => {
                    assert_eq!(s2, s);
                    assert!(matches!(*a, Expr::Texto(ref t, sp) if t.is_empty() && sp == s));
                    assert!(matches!(*b, Expr::Inteiro(1, _)));
                }
                _ => panic!("esperava \"\" + 1"),
            }
        }
        _ => panic!("esperava uma soma"),
    }
}

#[test]
fn funcao_anonima_como_argumento_e_em_bloco() {
    let cmds = analisar_fonte("mapear(lista, funcao(x) { retorne x * 2 })\nse verdadeiro {\n  var g = funcao() { }\n}").unwrap();
    assert_eq!(cmds.len(), 2);
    match &cmds[0] {
        Cmd::Expressao(Expr::Chamada { args, .. }) => {
            assert_eq!(args.len(), 2);
            assert!(matches!(&args[1], Expr::FuncaoAnon { params, corpo, .. }
                if params.len() == 1 && params[0].nome == "x"
                && matches!(&corpo[..], [Cmd::Retorne(Some(Expr::Binaria { op: OpBinaria::Multiplicacao, .. }), _)])));
        }
        _ => panic!("esperava uma chamada"),
    }
    assert!(matches!(&cmds[1], Cmd::Se { entao, .. }
        if matches!(&entao[..], [Cmd::DeclVar { valor: Expr::FuncaoAnon { .. }, .. }])));
}

#[test]
fn erro_em_trecho_interpolado_e_k018_no_texto() {
    let ds = analisar_fonte("var s = $\"oi {1 +}\"").unwrap_err();
    assert_eq!(ds[0].codigo, "K018");
    assert_eq!(ds[0].span, Span::novo(1, 9, 11));
    assert!(ds[0].mensagem.starts_with("erro na interpolação de texto: "));
}

#[test]
fn argumentos_aceitos_pela_lista_de_parametros() {
    let params = |fonte: &str| match analisar_fonte(fonte).unwrap().remove(0) {
        Cmd::DeclFuncao { params, .. } => params,
        _ => panic!("esperava uma função"),
    };
    let p = params("funcao f(a, b = 2) { }");
    assert!(!aceita_argumentos(&p, 0));
    assert!(aceita_argumentos(&p, 1));
    assert!(aceita_argumentos(&p, 2));
    assert!(!aceita_argumentos(&p, 3));
    let v = params("funcao g(a, ...resto) { }");
    assert!(!aceita_argumentos(&v, 0));
    assert!(aceita_argumentos(&v, 5));
}
